//! The syntax tree and query matches that `tree-sitter`'s Dart grammar gives a source file,
//! held as plain values.
use vstd::prelude::*;

use tree_sitter::StreamingIterator;

verus! {

broadcast use vstd::string::group_string_axioms;

/// A node of a tree-sitter syntax tree: its kind, its source text, where it starts (bytes,
/// and row and column, counted from zero), its error flags and its children (named and
/// anonymous, in order).
#[derive(Debug)]
pub struct SyntaxNode {
    pub kind: String,
    pub text: String,
    pub start_byte: usize,
    pub end_byte: usize,
    pub row: usize,
    pub column: usize,
    pub is_error: bool,
    pub is_missing: bool,
    /// Whether this node or a node below it is an error or a missing node.
    pub has_error: bool,
    pub children: Vec<SyntaxNode>,
}

/// A node captured by a query, with the name of its capture.
#[derive(Debug)]
pub struct Capture {
    pub name: String,
    pub node: SyntaxNode,
}

#[verifier::external_type_specification]
#[verifier::external_body]
pub struct ExTreeSitterNode<'tree>(tree_sitter::Node<'tree>);

/// The syntax tree tree-sitter's Dart grammar gives `content` (`None` when the parser
/// gives no tree). Parsing is deterministic: it depends on the text alone.
pub uninterp spec fn dart_syntax_tree(content: Seq<char>) -> Option<SyntaxNode>;

/// The matches, in tree-sitter's order, of the query `query` on the Dart syntax tree of
/// `content`, each as its captures in order (`None` when there is no tree or the query does
/// not compile).
pub uninterp spec fn dart_query_matches(content: Seq<char>, query: Seq<char>) -> Option<Seq<Seq<Capture>>>;

/// Parses `content` with `tree_sitter::Parser` set to `tree_sitter_dart::LANGUAGE` and
/// converts the tree node for node; the result is `dart_syntax_tree` of the text. Loading the
/// grammar and parsing failing both give `None`.
#[verifier::external_body]
pub(crate) fn parse_dart(content: &str) -> (r: Option<SyntaxNode>)
    ensures
        r == dart_syntax_tree(content@),
{
    let mut parser = tree_sitter::Parser::new();
    parser.set_language(&tree_sitter_dart::LANGUAGE.into()).ok()?;
    let tree = parser.parse(content, None)?;
    Some(SyntaxNode::from_ts(tree.root_node(), content))
}

/// Parses `content` as `parse_dart` does, compiles `query_source` with `tree_sitter::Query`
/// and runs it with `tree_sitter::QueryCursor::matches` from the root; each match becomes its
/// captures (capture name and converted node), in order. The result is `dart_query_matches`
/// of the two texts.
#[verifier::external_body]
pub(crate) fn query_dart(content: &str, query_source: &str) -> (r: Option<Vec<Vec<Capture>>>)
    ensures
        match (r, dart_query_matches(content@, query_source@)) {
            (Some(v), Some(m)) => v@.len() == m.len() && forall|i: int| 0 <= i < m.len() ==> #[trigger] v@[i]@ == m[i],
            (None, None) => true,
            _ => false,
        },
{
    let language: tree_sitter::Language = tree_sitter_dart::LANGUAGE.into();
    let mut parser = tree_sitter::Parser::new();
    parser.set_language(&language).ok()?;
    let tree = parser.parse(content, None)?;
    let query = tree_sitter::Query::new(&language, query_source).ok()?;
    let names = query.capture_names();
    let mut cursor = tree_sitter::QueryCursor::new();
    let mut matches = cursor.matches(&query, tree.root_node(), content.as_bytes());
    let mut out = Vec::new();
    while let Some(m) = matches.next() {
        out.push(m.captures.iter().map(|c| Capture { name: names[c.index as usize].to_string(), node: SyntaxNode::from_ts(c.node, content) }).collect());
    }
    Some(out)
}

impl SyntaxNode {
    /// Converts a tree-sitter node and everything below it, one node for one node, taking its
    /// text from `content`. Only `parse_dart` and `query_dart` call it.
    #[verifier::external_body]
    fn from_ts(node: tree_sitter::Node, content: &str) -> SyntaxNode {
        let mut cursor = node.walk();
        SyntaxNode {
            kind: node.kind().to_string(),
            text: node.utf8_text(content.as_bytes()).unwrap_or("").to_string(),
            start_byte: node.start_byte(),
            end_byte: node.end_byte(),
            row: node.start_position().row,
            column: node.start_position().column,
            is_error: node.is_error(),
            is_missing: node.is_missing(),
            has_error: node.has_error(),
            children: node.children(&mut cursor).map(|c| SyntaxNode::from_ts(c, content)).collect(),
        }
    }
}

/// `f` applied to each item of `s`, the results joined in order.
pub open spec fn gather<A, B>(s: Seq<A>, f: spec_fn(A) -> Seq<B>) -> Seq<B>
    decreases s.len(),
{
    if s.len() == 0 {
        Seq::empty()
    } else {
        gather(s.drop_last(), f) + f(s.last())
    }
}

/// Gathering one more item appends what it gives.
pub proof fn lemma_gather_step<A, B>(s: Seq<A>, f: spec_fn(A) -> Seq<B>, i: int)
    requires
        0 <= i < s.len(),
    ensures
        gather(s.take(i + 1), f) == gather(s.take(i), f) + f(s[i]),
{
    assert(s.take(i + 1).drop_last() =~= s.take(i));
}

/// Gathering over the whole of `s` through `take`.
pub proof fn lemma_gather_all<A, B>(s: Seq<A>, f: spec_fn(A) -> Seq<B>)
    ensures
        gather(s.take(s.len() as int), f) == gather(s, f),
{
    assert(s.take(s.len() as int) =~= s);
}

/// The text of child `i`, or the empty text when there is none.
pub open spec fn child_text(n: SyntaxNode, i: int) -> Seq<char> {
    if 0 <= i < n.children@.len() {
        n.children@[i].text@
    } else {
        Seq::empty()
    }
}

/// The text of child `i`, or the empty text when there is none.
pub fn child_text_of(n: &SyntaxNode, i: usize) -> (r: String)
    ensures
        r@ == child_text(*n, i as int),
{
    if i < n.children.len() {
        n.children[i].text.clone()
    } else {
        String::new()
    }
}

/// The first node, in document order (a node before its children), that is an error or a
/// missing node.
pub open spec fn first_error(n: SyntaxNode) -> Option<SyntaxNode>
    decreases n, 1int,
{
    if n.is_error || n.is_missing {
        Some(n)
    } else {
        first_error_from(n, 0)
    }
}

/// The first error or missing node below the children of `n` from child `i` on.
pub open spec fn first_error_from(n: SyntaxNode, i: int) -> Option<SyntaxNode>
    decreases n, 0int, n.children@.len() - i,
{
    if 0 <= i < n.children@.len() {
        proof {
            assert(decreases_to!(n => n.children));
            assert(decreases_to!(n.children => n.children@));
            assert(decreases_to!(n.children@ => n.children@[i]));
        }
        match first_error(n.children@[i]) {
            Some(e) => Some(e),
            None => first_error_from(n, i + 1),
        }
    } else {
        None
    }
}

/// The first error or missing node of the tree under `node`.
pub fn find_error_node(node: &SyntaxNode) -> (r: Option<&SyntaxNode>)
    ensures
        match r {
            Some(e) => first_error(*node) == Some(*e),
            None => first_error(*node) is None,
        },
    decreases node, 1int,
{
    if node.is_error || node.is_missing {
        return Some(node);
    }
    find_error_from(node, 0)
}

/// `first_error_from` as exec code.
fn find_error_from(node: &SyntaxNode, i: usize) -> (r: Option<&SyntaxNode>)
    requires
        !node.is_error && !node.is_missing,
    ensures
        match r {
            Some(e) => first_error_from(*node, i as int) == Some(*e),
            None => first_error_from(*node, i as int) is None,
        },
    decreases node, 0int, node.children@.len() - i,
{
    if i < node.children.len() {
        proof {
            assert(decreases_to!(node => node.children));
            assert(decreases_to!(node.children => node.children@));
            assert(decreases_to!(node.children@ => node.children@[i as int]));
        }
        match find_error_node(&node.children[i]) {
            Some(e) => Some(e),
            None => find_error_from(node, i + 1),
        }
    } else {
        None
    }
}

} // verus!
