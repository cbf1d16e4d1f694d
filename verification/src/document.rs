//! The configuration document: a tree of named nodes, as far as the shortcut
//! loader reads it, and its parsing from KDL text.

use crate::screen::{admitted, is_admitted};
use kdl::KdlDocument;
use vstd::prelude::*;
use vstd::string::StringSliceAdditionalSpecFns;

verus! {

/// A node of a configuration document.
#[derive(Debug, PartialEq, Eq)]
pub struct ConfigNode {
    /// The node's name.
    pub name: String,
    /// The node's entries in order, arguments and properties alike: for each
    /// the string it holds, or `None` where it holds a value of another kind.
    pub values: Vec<Option<String>>,
    /// The nodes of the node's children block, or `None` where it has no
    /// block.
    pub children: Option<Vec<ConfigNode>>,
}

/// Makes `kdl::KdlDocument` known to the verifier, as a type whose inside it
/// does not see.
#[verifier::external_type_specification]
#[verifier::external_body]
pub struct ExKdlDocument(KdlDocument);

/// The nodes that a `kdl::KdlDocument` holds, in order: of each node its
/// name, the strings of its entries and the nodes of its children block.
pub uninterp spec fn kdl_nodes(doc: KdlDocument) -> Seq<ConfigNode>;

/// The nodes of the document that the KDL parser reads from `text`, or `None`
/// where the parser reports an error.
pub uninterp spec fn parsed_kdl(text: Seq<char>) -> Option<Seq<ConfigNode>>;

/// Parses `text` with the `FromStr` impl of `kdl::KdlDocument`.
///
/// Trusted: on an admitted text the parser returns, and the outcome is a
/// function of the text alone; the nodes of a document that was read are
/// named by `parsed_kdl`. Nothing is claimed about which texts parse.
#[verifier::external_body]
fn parse_kdl(text: &str) -> (doc: Option<KdlDocument>)
    requires
        admitted(text.spec_bytes()),
    ensures
        match doc {
            Some(d) => parsed_kdl(text@) == Some(kdl_nodes(d)),
            None => parsed_kdl(text@) is None,
        },
{
    text.parse::<KdlDocument>().ok()
}

/// Copies the nodes of `doc` out of the KDL document: `KdlDocument::nodes`,
/// and for each node `KdlNode::name` with `KdlIdentifier::value`,
/// `KdlNode::entries` with `KdlEntry::value` and `KdlValue::as_string`, and
/// `KdlNode::children`.
///
/// Trusted: the result is the content of the document, named by
/// `kdl_nodes`.
#[verifier::external_body]
fn document_nodes(doc: &KdlDocument) -> (nodes: Vec<ConfigNode>)
    ensures
        nodes@ == kdl_nodes(*doc),
{
    doc.nodes().iter().map(|node| ConfigNode {
        name: node.name().value().to_string(),
        values: node.entries().iter().map(|e| e.value().as_string().map(str::to_string)).collect(),
        children: node.children().map(document_nodes),
    }).collect()
}

/// The document that is read from `text`: the nodes that the parser reads
/// from it, for a text that is admitted to the parser and that the parser
/// can read.
pub open spec fn document_of(text: &str) -> Option<Seq<ConfigNode>> {
    if admitted(text.spec_bytes()) {
        parsed_kdl(text@)
    } else {
        None
    }
}

/// Reads a configuration document from KDL text.
///
/// Gives `None` for a text that is not admitted to the parser, which is then
/// not called, and for a text that the parser reports as not well-formed.
pub fn parse_document(text: &str) -> (nodes: Option<Vec<ConfigNode>>)
    ensures
        match nodes {
            Some(nodes) => document_of(text) == Some(nodes@),
            None => document_of(text) is None,
        },
{
    if !is_admitted(text) {
        return None;
    }
    match parse_kdl(text) {
        Some(doc) => Some(document_nodes(&doc)),
        None => None,
    }
}

/// The first node of `nodes` that is named `name`, if there is one.
pub open spec fn first_named(nodes: Seq<ConfigNode>, name: Seq<char>) -> Option<ConfigNode>
    decreases nodes.len(),
{
    if nodes.len() == 0 {
        None
    } else if nodes[0].name@ == name {
        Some(nodes[0])
    } else {
        first_named(nodes.skip(1), name)
    }
}

/// The nodes of the children block of the first node named `name`, if there
/// is such a node and it has a block.
pub open spec fn section_named(nodes: Seq<ConfigNode>, name: Seq<char>) -> Option<
    Seq<ConfigNode>,
> {
    match first_named(nodes, name) {
        Some(node) => match node.children {
            Some(children) => Some(children@),
            None => None,
        },
        None => None,
    }
}

/// `first_named` finds a node exactly when some node has the name, and then
/// finds the earliest one.
pub proof fn lemma_first_named(nodes: Seq<ConfigNode>, name: Seq<char>)
    ensures
        match first_named(nodes, name) {
            Some(node) => exists|i: int|
                0 <= i < nodes.len() && nodes[i] == node && node.name@ == name && forall|j: int|
                    0 <= j < i ==> (#[trigger] nodes[j]).name@ != name,
            None => forall|j: int| 0 <= j < nodes.len() ==> (#[trigger] nodes[j]).name@ != name,
        },
    decreases nodes.len(),
{
    if nodes.len() > 0 && nodes[0].name@ != name {
        let rest = nodes.skip(1);
        lemma_first_named(rest, name);
        match first_named(rest, name) {
            Some(node) => {
                let i = choose|i: int|
                    0 <= i < rest.len() && rest[i] == node && node.name@ == name && forall|j: int|
                        0 <= j < i ==> (#[trigger] rest[j]).name@ != name;
                assert forall|j: int| 0 <= j < i + 1 implies (#[trigger] nodes[j]).name@
                    != name by {
                    if j > 0 {
                        assert(rest[j - 1] == nodes[j]);
                    }
                }
            },
            None => {
                assert forall|j: int| 0 <= j < nodes.len() implies (#[trigger] nodes[j]).name@
                    != name by {
                    if j > 0 {
                        assert(rest[j - 1] == nodes[j]);
                    }
                }
            },
        }
    }
}

/// Nodes before the first match do not change what `first_named` finds.
proof fn lemma_first_named_skip(nodes: Seq<ConfigNode>, name: Seq<char>, n: int)
    requires
        0 <= n <= nodes.len(),
        forall|j: int| 0 <= j < n ==> (#[trigger] nodes[j]).name@ != name,
    ensures
        first_named(nodes, name) == first_named(nodes.skip(n), name),
    decreases n,
{
    if n == 0 {
        assert(nodes.skip(0) =~= nodes);
    } else {
        lemma_first_named_skip(nodes, name, n - 1);
        let rest = nodes.skip(n - 1);
        assert(rest.skip(1) =~= nodes.skip(n));
    }
}

/// Finds the first node of `nodes` that is named `name`.
pub fn find_node<'a>(nodes: &'a Vec<ConfigNode>, name: &str) -> (found: Option<&'a ConfigNode>)
    ensures
        match found {
            Some(node) => first_named(nodes@, name@) == Some(*node),
            None => first_named(nodes@, name@) is None,
        },
{
    let wanted = name.to_owned();
    let mut i: usize = 0;
    while i < nodes.len()
        invariant
            i <= nodes.len(),
            wanted@ == name@,
            forall|j: int| 0 <= j < i ==> (#[trigger] nodes@[j]).name@ != name@,
        decreases nodes.len() - i,
    {
        if nodes[i].name == wanted {
            proof {
                lemma_first_named_skip(nodes@, name@, i as int);
            }
            return Some(&nodes[i]);
        }
        i += 1;
    }
    proof {
        lemma_first_named_skip(nodes@, name@, nodes@.len() as int);
    }
    None
}

/// Finds the children block of the first node of `nodes` that is named
/// `name`.
pub fn find_section<'a>(nodes: &'a Vec<ConfigNode>, name: &str) -> (found: Option<
    &'a Vec<ConfigNode>,
>)
    ensures
        match found {
            Some(children) => section_named(nodes@, name@) == Some(children@),
            None => section_named(nodes@, name@) is None,
        },
{
    match find_node(nodes, name) {
        Some(node) => match &node.children {
            Some(children) => Some(children),
            None => None,
        },
        None => None,
    }
}

} // verus!
