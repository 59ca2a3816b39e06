//! Paths from a table to a column through relations, and how they are extended.

use vstd::prelude::*;

verus! {

/// A column, named by its table and its position in the table.
#[derive(Clone, Copy, Debug, PartialEq, Eq, Structural)]
pub struct ColumnId {
    pub table_id: usize,
    pub column_index: usize,
}

/// One column of a relation's key and the column of the other table that it refers to.
#[derive(Clone, Copy, Debug, PartialEq, Eq, Structural)]
pub struct RelationColumnPair {
    pub self_column_id: ColumnId,
    pub foreign_column_id: ColumnId,
}

/// A step from one table to another along a relation.
#[derive(Clone, Debug, PartialEq, Eq)]
pub struct RelationLink {
    pub column_pairs: Vec<RelationColumnPair>,
    pub linked_table_alias: Option<String>,
}

/// The view of a [`RelationLink`].
pub struct RelationLinkView {
    pub column_pairs: Seq<RelationColumnPair>,
    pub linked_table_alias: Option<Seq<char>>,
}

impl View for RelationLink {
    type V = RelationLinkView;

    open spec fn view(&self) -> RelationLinkView {
        RelationLinkView {
            column_pairs: self.column_pairs@,
            linked_table_alias: match self.linked_table_alias {
                Some(a) => Some(a@),
                None => None,
            },
        }
    }
}

/// One link of a column path: a relation to follow, or the column that ends the path.
#[derive(Clone, Debug, PartialEq, Eq)]
pub enum ColumnPathLink {
    Relation(RelationLink),
    Leaf(ColumnId),
}

/// The view of a [`ColumnPathLink`].
pub enum ColumnPathLinkView {
    Relation(RelationLinkView),
    Leaf(ColumnId),
}

impl View for ColumnPathLink {
    type V = ColumnPathLinkView;

    open spec fn view(&self) -> ColumnPathLinkView {
        match self {
            ColumnPathLink::Relation(r) => ColumnPathLinkView::Relation(r@),
            ColumnPathLink::Leaf(c) => ColumnPathLinkView::Leaf(*c),
        }
    }
}

/// The views of a list of links, link by link.
pub open spec fn link_views(links: Seq<ColumnPathLink>) -> Seq<ColumnPathLinkView> {
    Seq::new(links.len(), |i: int| links[i]@)
}

/// A path is well formed when it has a link and only its last link may be a leaf.
pub open spec fn path_wf(links: Seq<ColumnPathLinkView>) -> bool {
    &&& links.len() >= 1
    &&& forall|i: int| 0 <= i < links.len() - 1 ==> links[i] is Relation
}

/// A copy of a list of column pairs.
pub fn duplicate_pairs(pairs: &Vec<RelationColumnPair>) -> (r: Vec<RelationColumnPair>)
    ensures
        r@ == pairs@,
{
    let mut out: Vec<RelationColumnPair> = Vec::new();
    let mut i: usize = 0;
    while i < pairs.len()
        invariant
            i <= pairs.len(),
            out@ == pairs@.subrange(0, i as int),
        decreases pairs.len() - i,
    {
        out.push(pairs[i]);
        assert(out@ =~= pairs@.subrange(0, i + 1));
        i += 1;
    }
    assert(out@ =~= pairs@);
    out
}

impl ColumnPathLink {
    /// The link along a relation with the given key columns.
    pub fn relation(column_pairs: Vec<RelationColumnPair>, linked_table_alias: Option<String>) -> (r:
        ColumnPathLink)
        ensures
            r == ColumnPathLink::Relation(RelationLink { column_pairs, linked_table_alias }),
    {
        ColumnPathLink::Relation(RelationLink { column_pairs, linked_table_alias })
    }

    /// A copy of this link.
    pub fn duplicate(&self) -> (r: ColumnPathLink)
        ensures
            r@ == self@,
    {
        match self {
            ColumnPathLink::Relation(link) => {
                let alias = match &link.linked_table_alias {
                    Some(a) => Some(a.clone()),
                    None => None,
                };
                ColumnPathLink::Relation(
                    RelationLink {
                        column_pairs: duplicate_pairs(&link.column_pairs),
                        linked_table_alias: alias,
                    },
                )
            },
            ColumnPathLink::Leaf(c) => ColumnPathLink::Leaf(*c),
        }
    }

    /// Whether this link ends a path.
    pub fn is_leaf(&self) -> (r: bool)
        ensures
            r == (self@ is Leaf),
    {
        match self {
            ColumnPathLink::Leaf(_) => true,
            ColumnPathLink::Relation(_) => false,
        }
    }
}

/// A non-empty path of links from a table; only the last link may be a leaf.
#[derive(Clone, Debug, PartialEq, Eq)]
pub struct PhysicalColumnPath {
    pub links: Vec<ColumnPathLink>,
}

impl View for PhysicalColumnPath {
    type V = Seq<ColumnPathLinkView>;

    open spec fn view(&self) -> Seq<ColumnPathLinkView> {
        link_views(self.links@)
    }
}

impl PhysicalColumnPath {
    /// Whether the path is well formed.
    pub open spec fn wf(&self) -> bool {
        path_wf(self@)
    }

    /// The path made of one link.
    pub fn init(link: ColumnPathLink) -> (r: PhysicalColumnPath)
        ensures
            r@ == seq![link@],
            r.wf(),
    {
        let mut links: Vec<ColumnPathLink> = Vec::new();
        links.push(link);
        let r = PhysicalColumnPath { links };
        assert(r@ =~= seq![link@]);
        r
    }

    /// The path made of one column.
    pub fn leaf(column_id: ColumnId) -> (r: PhysicalColumnPath)
        ensures
            r@ == seq![ColumnPathLinkView::Leaf(column_id)],
            r.wf(),
    {
        PhysicalColumnPath::init(ColumnPathLink::Leaf(column_id))
    }

    /// The last link of the path.
    pub fn last_link(&self) -> (r: &ColumnPathLink)
        requires
            self.wf(),
        ensures
            r@ == self@.last(),
    {
        &self.links[self.links.len() - 1]
    }

    /// A copy of this path.
    pub fn duplicate(&self) -> (r: PhysicalColumnPath)
        ensures
            r@ == self@,
    {
        let mut out: Vec<ColumnPathLink> = Vec::new();
        let mut i: usize = 0;
        while i < self.links.len()
            invariant
                i <= self.links.len(),
                out@.len() == i,
                forall|j: int| 0 <= j < i ==> out@[j]@ == self.links@[j]@,
            decreases self.links.len() - i,
        {
            out.push(self.links[i].duplicate());
            i += 1;
        }
        let r = PhysicalColumnPath { links: out };
        assert(r@ =~= self@);
        r
    }

    /// The path without its last link, or `None` where that leaves nothing.
    pub fn without_last(&self) -> (r: Option<PhysicalColumnPath>)
        requires
            self.wf(),
        ensures
            self@.len() == 1 ==> r.is_none(),
            self@.len() > 1 ==> r.is_some() && r.unwrap()@ == self@.drop_last() && r.unwrap().wf(),
    {
        if self.links.len() == 1 {
            return None;
        }
        let mut out: Vec<ColumnPathLink> = Vec::new();
        let mut i: usize = 0;
        while i < self.links.len() - 1
            invariant
                self.links.len() >= 1,
                i <= self.links.len() - 1,
                out@.len() == i,
                forall|j: int| 0 <= j < i ==> out@[j]@ == self.links@[j]@,
            decreases self.links.len() - i,
        {
            out.push(self.links[i].duplicate());
            i += 1;
        }
        let r = PhysicalColumnPath { links: out };
        assert(r@ =~= self@.drop_last());
        Some(r)
    }

    /// The path with `link` added at its end. The path must end in a relation:
    /// nothing follows a leaf.
    pub fn push(self, link: ColumnPathLink) -> (r: PhysicalColumnPath)
        requires
            self.wf(),
            self@.last() is Relation,
        ensures
            r@ == self@.push(link@),
            r.wf(),
    {
        let mut links = self.links;
        links.push(link);
        let r = PhysicalColumnPath { links };
        assert(r@ =~= self@.push(link@));
        r
    }
}

/// The path that extending `parent` by `link` gives: a trailing leaf of the
/// parent makes way for the link, a missing link leaves the parent as it is, and
/// without a parent the link starts a path.
pub open spec fn extended_path(
    parent: Option<Seq<ColumnPathLinkView>>,
    link: Option<ColumnPathLinkView>,
) -> Option<Seq<ColumnPathLinkView>> {
    match (parent, link) {
        (Some(p), Some(l)) => Some(
            if p.last() is Leaf {
                p.drop_last().push(l)
            } else {
                p.push(l)
            },
        ),
        (Some(p), None) => Some(p),
        (None, Some(l)) => Some(seq![l]),
        (None, None) => None,
    }
}

/// The view of an optional path.
pub open spec fn path_option_view(path: Option<PhysicalColumnPath>) -> Option<Seq<ColumnPathLinkView>> {
    match path {
        Some(p) => Some(p@),
        None => None,
    }
}

/// The view of an optional link.
pub open spec fn link_option_view(link: Option<ColumnPathLink>) -> Option<ColumnPathLinkView> {
    match link {
        Some(l) => Some(l@),
        None => None,
    }
}

/// Extends `parent_column_path` by `next_column_path_link`.
pub fn to_column_path(
    parent_column_path: &Option<PhysicalColumnPath>,
    next_column_path_link: &Option<ColumnPathLink>,
) -> (r: Option<PhysicalColumnPath>)
    requires
        parent_column_path is Some ==> parent_column_path.unwrap().wf(),
    ensures
        path_option_view(r) == extended_path(
            path_option_view(*parent_column_path),
            link_option_view(*next_column_path_link),
        ),
        r is Some ==> r.unwrap().wf(),
{
    match parent_column_path {
        Some(parent) => match next_column_path_link {
            Some(link) => {
                let base_path = if parent.last_link().is_leaf() {
                    parent.without_last()
                } else {
                    Some(parent.duplicate())
                };
                match base_path {
                    Some(path) => Some(path.push(link.duplicate())),
                    None => {
                        let r = PhysicalColumnPath::init(link.duplicate());
                        assert(r@ =~= parent@.drop_last().push(link@));
                        Some(r)
                    },
                }
            },
            None => Some(parent.duplicate()),
        },
        None => match next_column_path_link {
            Some(link) => Some(PhysicalColumnPath::init(link.duplicate())),
            None => None,
        },
    }
}

/// Extending a well-formed path gives a well-formed path: no leaf is ever
/// followed by another link.
pub proof fn lemma_extended_path_wf(
    parent: Option<Seq<ColumnPathLinkView>>,
    link: Option<ColumnPathLinkView>,
)
    requires
        parent is Some ==> path_wf(parent.unwrap()),
    ensures
        extended_path(parent, link) is Some ==> path_wf(extended_path(parent, link).unwrap()),
{
}

/// Extending a path that ends in a leaf by a relation drops the leaf: the
/// result is the parent without its last link, followed by the relation.
pub proof fn lemma_relation_replaces_leaf(parent: Seq<ColumnPathLinkView>, link: ColumnPathLinkView)
    requires
        path_wf(parent),
        parent.last() is Leaf,
        link is Relation,
    ensures
        extended_path(Some(parent), Some(link)) == Some(parent.drop_last().push(link)),
        extended_path(Some(parent), Some(link)).unwrap().last() == link,
        extended_path(Some(parent), Some(link)).unwrap().len() == parent.len(),
{
}

/// Extending any path by a leaf gives a path that ends in that leaf.
pub proof fn lemma_leaf_ends_path(parent: Option<Seq<ColumnPathLinkView>>, link: ColumnPathLinkView)
    requires
        parent is Some ==> path_wf(parent.unwrap()),
        link is Leaf,
    ensures
        extended_path(parent, Some(link)).unwrap().last() == link,
{
}

/// Extending a path by no link gives the path itself.
pub proof fn lemma_no_link_is_identity(parent: Option<Seq<ColumnPathLinkView>>)
    ensures
        extended_path(parent, None) == parent,
{
}

} // verus!
