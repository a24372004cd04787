//! Generic pieces of the DOM selector-query APIs over a document tree held in
//! document order: collecting the matching elements under a root, for
//! `querySelector` (the first match) and `querySelectorAll` (every match).
use vstd::prelude::*;
use smallvec::SmallVec;
use crate::ceremony::text_eq;

verus! {

/// Element indices kept inline up to 128 of them, in a `SmallVec`.
#[verifier::external_body]
pub struct ElementList {
    items: SmallVec<[usize; 128]>,
}

/// The elements that a query result holds, in order.
pub uninterp spec fn small_items(v: ElementList) -> Seq<usize>;

/// Relies on `SmallVec::new`, which makes an empty vector.
#[verifier::external_body]
fn small_new() -> (r: ElementList)
    ensures
        small_items(r) == Seq::<usize>::empty(),
{
    ElementList { items: SmallVec::new() }
}

/// Relies on `SmallVec::to_vec`, which copies the items in order.
#[verifier::external_body]
fn small_to_vec(v: &ElementList) -> (r: Vec<usize>)
    ensures
        r@ == small_items(*v),
{
    v.items.to_vec()
}

/// Relies on `SmallVec::push`, which appends at the end. It panics only when
/// the doubled capacity would overflow `usize`.
#[verifier::external_body]
fn small_push(v: &mut ElementList, e: usize)
    requires
        small_items(*old(v)).len() < usize::MAX / 2,
    ensures
        small_items(*final(v)) == small_items(*old(v)).push(e),
{
    v.items.push(e)
}

/// Relies on `SmallVec::is_empty`, which tests for length zero.
#[verifier::external_body]
fn small_is_empty(v: &ElementList) -> (r: bool)
    ensures
        r == (small_items(*v).len() == 0),
{
    v.items.is_empty()
}

/// What a node of the tree is.
#[derive(Clone, Copy, Debug, PartialEq, Eq, Structural)]
pub enum NodeKind {
    Document,
    ShadowRoot,
    Element,
    Text,
}

/// A node; `parent` is the index of its parent in the tree.
pub struct Node {
    pub kind: NodeKind,
    pub parent: Option<usize>,
    pub local_name: String,
    pub attr_names: Vec<String>,
    pub id: Option<String>,
}

/// The nodes of a tree, listed in document order; a query walks them by
/// index, so that order is the order of its results.
pub struct Tree {
    pub nodes: Vec<Node>,
}

/// Whether `a` is a proper ancestor of node `n`.
pub open spec fn is_strict_ancestor(nodes: Seq<Node>, a: int, n: int) -> bool
    decreases n,
{
    if 0 <= n < nodes.len() {
        match nodes[n].parent {
            Some(p) => if p < n {
                p == a || is_strict_ancestor(nodes, a, p as int)
            } else {
                false
            },
            None => false,
        }
    } else {
        false
    }
}

/// A cheap test that a query can apply to each element before anything else.
pub enum SimpleFilter {
    Any,
    LocalName(String),
    Attr(String),
    Id(String),
}

pub open spec fn has_attr_spec(n: Node, name: Seq<char>) -> bool {
    exists|i: int| 0 <= i < n.attr_names.len() && (#[trigger] n.attr_names@[i])@ == name
}

pub open spec fn passes(n: Node, f: SimpleFilter) -> bool {
    match f {
        SimpleFilter::Any => true,
        SimpleFilter::LocalName(name) => n.local_name@ == name@,
        SimpleFilter::Attr(name) => has_attr_spec(n, name@),
        SimpleFilter::Id(id) => n.id matches Some(x) && x@ == id@,
    }
}

/// Whether node `j` is an element under `root` that passes `f`.
pub open spec fn selected(nodes: Seq<Node>, root: int, f: SimpleFilter, j: int) -> bool {
    nodes[j].kind == NodeKind::Element && is_strict_ancestor(nodes, root, j) && passes(nodes[j], f)
}

/// The selected elements among the first `end` nodes, in document order.
pub open spec fn selected_upto(nodes: Seq<Node>, root: int, f: SimpleFilter, end: int) -> Seq<usize>
    decreases end,
{
    if end <= 0 {
        Seq::empty()
    } else {
        let prev = selected_upto(nodes, root, f, end - 1);
        if selected(nodes, root, f, end - 1) {
            prev.push((end - 1) as usize)
        } else {
            prev
        }
    }
}

/// The query result after one more element is offered to it.
pub open spec fn appended(stops_after_first: bool, found: Seq<usize>, e: usize) -> Seq<usize> {
    if stops_after_first && found.len() > 0 {
        found
    } else {
        found.push(e)
    }
}

/// The query result after the elements `items` are offered to it in order; a
/// query that stops after the first match is offered the first one only.
pub open spec fn collected(stops_after_first: bool, found: Seq<usize>, items: Seq<usize>) -> Seq<
    usize,
> {
    if stops_after_first {
        if items.len() == 0 {
            found
        } else {
            appended(true, found, items[0])
        }
    } else {
        found + items
    }
}

/// A selector query, generic over `querySelector` and `querySelectorAll`.
pub trait SelectorQuery {
    /// The output of the query.
    type Output;

    /// The elements the output holds, in order.
    spec fn found(output: Self::Output) -> Seq<usize>;

    spec fn stops_after_first() -> bool;

    /// Whether the query should stop after the first element has been matched.
    fn should_stop_after_first_match() -> (r: bool)
        ensures
            r == Self::stops_after_first(),
    ;

    /// Offers a matching element to the output.
    fn append_element(output: &mut Self::Output, element: usize)
        requires
            Self::found(*old(output)).len() < usize::MAX / 2,
        ensures
            Self::found(*final(output)) == appended(
                Self::stops_after_first(),
                Self::found(*old(output)),
                element,
            ),
    ;

    /// Whether the output holds no element.
    fn is_empty(output: &Self::Output) -> (r: bool)
        ensures
            r == (Self::found(*output).len() == 0),
    ;
}

/// The result of a querySelectorAll call.
pub type QuerySelectorAllResult = ElementList;

/// A query for all the elements in a subtree.
pub struct QueryAll;

impl SelectorQuery for QueryAll {
    type Output = QuerySelectorAllResult;

    open spec fn found(output: QuerySelectorAllResult) -> Seq<usize> {
        small_items(output)
    }

    open spec fn stops_after_first() -> bool {
        false
    }

    fn should_stop_after_first_match() -> (r: bool) {
        false
    }

    fn append_element(output: &mut QuerySelectorAllResult, element: usize) {
        small_push(output, element);
    }

    fn is_empty(output: &QuerySelectorAllResult) -> (r: bool) {
        small_is_empty(output)
    }
}

impl QueryAll {
    /// An empty result for a querySelectorAll call.
    pub fn new_output() -> (r: QuerySelectorAllResult)
        ensures
            small_items(r) == Seq::<usize>::empty(),
    {
        small_new()
    }
}

impl ElementList {
    /// The elements found, in order.
    pub fn to_vec(&self) -> (r: Vec<usize>)
        ensures
            r@ == small_items(*self),
    {
        small_to_vec(self)
    }
}

/// A query for the first in-tree match of all the elements in a subtree.
pub struct QueryFirst;

impl SelectorQuery for QueryFirst {
    type Output = Option<usize>;

    open spec fn found(output: Option<usize>) -> Seq<usize> {
        match output {
            Some(e) => seq![e],
            None => Seq::empty(),
        }
    }

    open spec fn stops_after_first() -> bool {
        true
    }

    fn should_stop_after_first_match() -> (r: bool) {
        true
    }

    fn append_element(output: &mut Option<usize>, element: usize) {
        if output.is_none() {
            *output = Some(element);
        }
    }

    fn is_empty(output: &Option<usize>) -> (r: bool) {
        output.is_none()
    }
}

/// Whether the invalidation machinery should be used for this query.
#[derive(Clone, Copy, Debug, PartialEq, Eq, Structural)]
pub enum MayUseInvalidation {
    /// We may use it if we deem it useful.
    Yes,
    /// Don't use it.
    No,
}

/// Whether `element` carries an attribute named `local_name`.
pub fn has_attr(element: &Node, local_name: &str) -> (r: bool)
    ensures
        r == has_attr_spec(*element, local_name@),
{
    let mut found = false;
    let mut i: usize = 0;
    while i < element.attr_names.len()
        invariant
            i <= element.attr_names.len(),
            found == exists|k: int| 0 <= k < i && (#[trigger] element.attr_names@[k])@ == local_name@,
        decreases element.attr_names.len() - i,
    {
        found = found || text_eq(element.attr_names[i].as_str(), local_name);
        i = i + 1;
    }
    found
}

/// Whether `element` passes `filter`.
pub fn passes_filter(element: &Node, filter: &SimpleFilter) -> (r: bool)
    ensures
        r == passes(*element, *filter),
{
    match filter {
        SimpleFilter::Any => true,
        SimpleFilter::LocalName(name) => text_eq(element.local_name.as_str(), name.as_str()),
        SimpleFilter::Attr(name) => has_attr(element, name.as_str()),
        SimpleFilter::Id(id) => match &element.id {
            Some(x) => text_eq(x.as_str(), id.as_str()),
            None => false,
        },
    }
}

/// Walks up from `n` looking for `root`.
fn descends_from(tree: &Tree, n: usize, root: usize) -> (r: bool)
    requires
        n < tree.nodes.len(),
    ensures
        r == is_strict_ancestor(tree.nodes@, root as int, n as int),
{
    let ghost nodes = tree.nodes@;
    let mut cur: usize = n;
    loop
        invariant
            cur < tree.nodes.len(),
            nodes == tree.nodes@,
            is_strict_ancestor(nodes, root as int, n as int) == is_strict_ancestor(
                nodes,
                root as int,
                cur as int,
            ),
        decreases cur,
    {
        match tree.nodes[cur].parent {
            Some(p) => {
                if p >= cur {
                    return false;
                }
                if p == root {
                    return true;
                }
                cur = p;
            },
            None => {
                return false;
            },
        }
    }
}

/// Returns whether a given element connected to `root` is a descendant of
/// `root`; an element is no descendant of itself. An element connected to a
/// document or a shadow root lies under it, so those answer at once.
pub fn connected_element_is_descendant_of(tree: &Tree, element: usize, root: usize) -> (r: bool)
    requires
        element < tree.nodes.len(),
        root < tree.nodes.len(),
        tree.nodes@[root as int].kind == NodeKind::Document || tree.nodes@[root as int].kind
            == NodeKind::ShadowRoot ==> is_strict_ancestor(tree.nodes@, root as int, element as int),
    ensures
        r == is_strict_ancestor(tree.nodes@, root as int, element as int),
{
    match tree.nodes[root].kind {
        NodeKind::Document => true,
        NodeKind::ShadowRoot => true,
        _ => descends_from(tree, element, root),
    }
}

/// Offers every element under `root` that passes `filter` to the query's
/// output, in document order, stopping after the first one when the query
/// asks for no more.
pub fn collect_all_elements<Q: SelectorQuery>(
    tree: &Tree,
    root: usize,
    results: &mut Q::Output,
    filter: &SimpleFilter,
)
    requires
        Q::found(*old(results)).len() + tree.nodes.len() < usize::MAX / 2,
    ensures
        Q::found(*final(results)) == collected(
            Q::stops_after_first(),
            Q::found(*old(results)),
            selected_upto(tree.nodes@, root as int, *filter, tree.nodes.len() as int),
        ),
{
    let ghost start = Q::found(*results);
    let ghost nodes = tree.nodes@;
    let stops = Q::should_stop_after_first_match();
    let mut j: usize = 0;
    while j < tree.nodes.len()
        invariant
            j <= tree.nodes.len(),
            nodes == tree.nodes@,
            start == Q::found(*old(results)),
            start.len() + tree.nodes.len() < usize::MAX / 2,
            stops == Q::stops_after_first(),
            stops ==> selected_upto(nodes, root as int, *filter, j as int).len() == 0,
            stops ==> Q::found(*results) == start,
            !stops ==> Q::found(*results) == start + selected_upto(
                nodes,
                root as int,
                *filter,
                j as int,
            ),
            selected_upto(nodes, root as int, *filter, j as int).len() <= j,
        decreases tree.nodes.len() - j,
    {
        let node = &tree.nodes[j];
        let pick = node.kind == NodeKind::Element && descends_from(tree, j, root) && passes_filter(
            node,
            filter,
        );
        if pick {
            Q::append_element(results, j);
            if stops {
                proof {
                    let s = selected_upto(nodes, root as int, *filter, j + 1);
                    assert(s == seq![j]);
                    lemma_selected_prefix(nodes, root as int, *filter, j + 1, nodes.len() as int);
                    let all = selected_upto(nodes, root as int, *filter, nodes.len() as int);
                    assert(all.subrange(0, 1)[0] == all[0]);
                }
                return ;
            }
        }
        proof {
            if !stops {
                assert(Q::found(*results) =~= start + selected_upto(
                    nodes,
                    root as int,
                    *filter,
                    j + 1,
                ));
            }
        }
        j = j + 1;
    }
}

/// The selection among the first `a` nodes begins the selection among the
/// first `b`.
proof fn lemma_selected_prefix(nodes: Seq<Node>, root: int, f: SimpleFilter, a: int, b: int)
    requires
        0 <= a <= b,
    ensures
        selected_upto(nodes, root, f, b).len() >= selected_upto(nodes, root, f, a).len(),
        selected_upto(nodes, root, f, b).subrange(0, selected_upto(nodes, root, f, a).len() as int)
            == selected_upto(nodes, root, f, a),
    decreases b - a,
{
    if a < b {
        lemma_selected_prefix(nodes, root, f, a, b - 1);
        let sa = selected_upto(nodes, root, f, a);
        let sb1 = selected_upto(nodes, root, f, b - 1);
        let sb = selected_upto(nodes, root, f, b);
        assert(sb.subrange(0, sa.len() as int) =~= sb1.subrange(0, sa.len() as int));
    } else {
        let sa = selected_upto(nodes, root, f, a);
        assert(sa.subrange(0, sa.len() as int) =~= sa);
    }
}

} // verus!
