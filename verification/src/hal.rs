//! Links of a HAL resource representation: a single link with an `href` and
//! an optional name, and the set of links kept under one relation name.

use vstd::prelude::*;

verus! {

/// A single link in a resource representation.
#[derive(Clone, Debug, PartialEq)]
pub struct Link {
    /// The actual link href.
    pub href: String,
    /// The optional name of the link.
    pub name: Option<String>,
}

impl Link {
    /// Build an unnamed link pointing at `href`.
    pub fn from(href: &str) -> (link: Link)
        ensures
            link.href@ == href@,
            link.name is None,
    {
        Link { href: href.to_owned(), name: None }
    }
}

/// The links kept under one relation name: either a single link or a list of
/// several.
#[derive(Clone, Debug, PartialEq)]
pub enum Links {
    /// A single link.
    Single(Link),
    /// A set of multiple links.
    Multiple(Vec<Link>),
}

impl Links {
    /// The sequence of links this value denotes, in order.
    pub open spec fn links(self) -> Seq<Link> {
        match self {
            Links::Single(link) => seq![link],
            Links::Multiple(links) => links@,
        }
    }

    /// Append an additional link to this representation. The result is
    /// always multiple links, even if the input was only a single one, and
    /// holds the previous links in order, followed by the new one.
    pub fn append(self, link: Link) -> (appended: Links)
        ensures
            appended is Multiple,
            appended.links() == self.links().push(link),
    {
        let ghost orig = self.links();
        let links = match self {
            Links::Single(previous) => {
                let mut list: Vec<Link> = Vec::new();
                list.push(previous);
                list.push(link);
                list
            },
            Links::Multiple(mut previous) => {
                previous.push(link);
                previous
            },
        };
        proof {
            assert(links@ =~= orig.push(link));
        }
        Links::Multiple(links)
    }
}

} // verus!
