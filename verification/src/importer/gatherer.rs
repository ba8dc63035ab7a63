//! Reading a gatherer building out of its prefab file: the first document
//! whose MonoBehaviour names the building, describes it and gives its base
//! cost.

use crate::importer::yaml::{
    parse_yaml_documents, rewrite_yaml_tags, yaml_documents, yaml_tags_rewritten, YamlNode,
};
use crate::strings::str_equal;
use vstd::prelude::*;

verus! {

/// A gatherer building.
#[derive(Debug)]
pub struct Gatherer {
    pub name: String,
    pub description: String,
    pub base_cost: i64,
}

impl View for Gatherer {
    type V = (Seq<char>, Seq<char>, i64);

    open spec fn view(&self) -> (Seq<char>, Seq<char>, i64) {
        (self.name@, self.description@, self.base_cost)
    }
}

/// Why no gatherer was read from a prefab.
#[derive(Debug, Clone, Copy, PartialEq, Eq)]
pub enum GathererError {
    /// A document before any gatherer could not be read.
    InvalidDocument,
    /// No document holds a gatherer.
    NotFound,
}

/// `node` with its tags taken off, as serde_yaml's accessors look through
/// them.
pub open spec fn untagged(node: YamlNode) -> YamlNode
    decreases node,
{
    match node {
        YamlNode::Tagged(_, inner) => untagged(*inner),
        _ => node,
    }
}

/// The value of the first entry whose key is the plain string `key`.
pub open spec fn entry_for(entries: Seq<(YamlNode, YamlNode)>, key: Seq<char>) -> Option<YamlNode>
    decreases entries.len(),
{
    if entries.len() == 0 {
        None
    } else if entries[0].0 matches YamlNode::Text(k) && k@ == key {
        Some(entries[0].1)
    } else {
        entry_for(entries.drop_first(), key)
    }
}

/// The value under `key` of `node`, when `node` (through its tags) is a
/// mapping that has it.
pub open spec fn mapping_get(node: YamlNode, key: Seq<char>) -> Option<YamlNode> {
    match untagged(node) {
        YamlNode::Mapping(entries) => entry_for(entries@, key),
        _ => None,
    }
}

/// The chars of `node` when it is (through its tags) a string.
pub open spec fn text_of(node: Option<YamlNode>) -> Option<Seq<char>> {
    match node {
        Some(n) => match untagged(n) {
            YamlNode::Text(s) => Some(s@),
            _ => None,
        },
        None => None,
    }
}

/// The value of `node` when it is (through its tags) an integer of `i64`.
pub open spec fn integer_of(node: Option<YamlNode>) -> Option<i64> {
    match node {
        Some(n) => match untagged(n) {
            YamlNode::Integer(i) => Some(i),
            _ => None,
        },
        None => None,
    }
}

/// The gatherer in document `doc`: its `MonoBehaviour` mapping has the
/// string `buildingName`, the string `description` and the integer
/// `baseCost`.
pub open spec fn gatherer_of(doc: YamlNode) -> Option<(Seq<char>, Seq<char>, i64)> {
    match mapping_get(doc, "MonoBehaviour"@) {
        Some(mono_behaviour) => {
            let name = text_of(mapping_get(mono_behaviour, "buildingName"@));
            let description = text_of(mapping_get(mono_behaviour, "description"@));
            let base_cost = integer_of(mapping_get(mono_behaviour, "baseCost"@));
            if name is Some && description is Some && base_cost is Some {
                Some((name->0, description->0, base_cost->0))
            } else {
                None
            }
        },
        None => None,
    }
}

/// Going through the documents in order: the first gatherer, or
/// `InvalidDocument` when a document that cannot be read comes first, or
/// `NotFound`.
pub open spec fn first_gatherer_of(docs: Seq<Option<YamlNode>>) -> Result<
    (Seq<char>, Seq<char>, i64),
    GathererError,
>
    decreases docs.len(),
{
    if docs.len() == 0 {
        Err(GathererError::NotFound)
    } else {
        match docs[0] {
            None => Err(GathererError::InvalidDocument),
            Some(doc) => match gatherer_of(doc) {
                Some(g) => Ok(g),
                None => first_gatherer_of(docs.drop_first()),
            },
        }
    }
}

/// The node a borrowed node stands for.
pub open spec fn owned(node: Option<&YamlNode>) -> Option<YamlNode> {
    match node {
        Some(n) => Some(*n),
        None => None,
    }
}

fn untag(node: &YamlNode) -> (r: &YamlNode)
    ensures
        *r == untagged(*node),
    decreases node,
{
    match node {
        YamlNode::Tagged(_, inner) => untag(inner),
        _ => node,
    }
}

/// The value under `key` of `node`, when `node` is a mapping that has it.
fn get_entry<'a>(node: &'a YamlNode, key: &str) -> (r: Option<&'a YamlNode>)
    ensures
        match r {
            Some(v) => mapping_get(*node, key@) == Some(*v),
            None => mapping_get(*node, key@) is None,
        },
{
    match untag(node) {
        YamlNode::Mapping(entries) => {
            let mut k: usize = 0;
            assert(entries@.skip(0) =~= entries@);
            while k < entries.len()
                invariant
                    k <= entries@.len(),
                    mapping_get(*node, key@) == entry_for(entries@, key@),
                    entry_for(entries@, key@) == entry_for(entries@.skip(k as int), key@),
                decreases entries@.len() - k,
            {
                assert(entries@.skip(k as int)[0] == entries@[k as int]);
                match &entries[k].0 {
                    YamlNode::Text(s) => {
                        if str_equal(s.as_str(), key) {
                            assert(entries@.skip(k as int).len() > 0);
                            assert(entry_for(entries@.skip(k as int), key@) == Some(
                                entries@[k as int].1,
                            ));
                            return Some(&entries[k].1);
                        }
                    },
                    _ => {},
                }
                assert(entries@.skip(k as int).drop_first() =~= entries@.skip(k + 1));
                k = k + 1;
            }
            None
        },
        _ => None,
    }
}

fn text_at<'a>(node: Option<&'a YamlNode>) -> (r: Option<&'a String>)
    ensures
        match r {
            Some(s) => text_of(owned(node)) == Some(s@),
            None => text_of(owned(node)) is None,
        },
{
    match node {
        Some(n) => match untag(n) {
            YamlNode::Text(s) => Some(s),
            _ => None,
        },
        None => None,
    }
}

fn integer_at(node: Option<&YamlNode>) -> (r: Option<i64>)
    ensures
        r == integer_of(owned(node)),
{
    match node {
        Some(n) => match untag(n) {
            YamlNode::Integer(i) => Some(*i),
            _ => None,
        },
        None => None,
    }
}

/// The gatherer in document `doc`, if its `MonoBehaviour` mapping has the
/// string `buildingName`, the string `description` and the integer
/// `baseCost`.
pub fn gatherer_of_document(doc: &YamlNode) -> (r: Option<Gatherer>)
    ensures
        match r {
            Some(g) => gatherer_of(*doc) == Some(g@),
            None => gatherer_of(*doc) is None,
        },
{
    let mono_behaviour = match get_entry(doc, "MonoBehaviour") {
        Some(m) => m,
        None => return None,
    };
    let name = text_at(get_entry(mono_behaviour, "buildingName"));
    let description = text_at(get_entry(mono_behaviour, "description"));
    let base_cost = integer_at(get_entry(mono_behaviour, "baseCost"));
    match (name, description, base_cost) {
        (Some(name), Some(description), Some(base_cost)) => Some(
            Gatherer { name: name.clone(), description: description.clone(), base_cost },
        ),
        _ => None,
    }
}

/// Going through `docs` in order: the first gatherer, or `InvalidDocument`
/// when a document that could not be read comes first, or `NotFound`.
pub fn first_gatherer(docs: &Vec<Option<YamlNode>>) -> (r: Result<Gatherer, GathererError>)
    ensures
        match r {
            Ok(g) => first_gatherer_of(docs@) == Ok::<_, GathererError>(g@),
            Err(e) => first_gatherer_of(docs@) == Err::<(Seq<char>, Seq<char>, i64), _>(e),
        },
{
    let mut k: usize = 0;
    assert(docs@.skip(0) =~= docs@);
    while k < docs.len()
        invariant
            k <= docs@.len(),
            first_gatherer_of(docs@) == first_gatherer_of(docs@.skip(k as int)),
        decreases docs@.len() - k,
    {
        assert(docs@.skip(k as int)[0] == docs@[k as int]);
        assert(docs@.skip(k as int).drop_first() =~= docs@.skip(k + 1));
        match &docs[k] {
            None => return Err(GathererError::InvalidDocument),
            Some(doc) => match gatherer_of_document(doc) {
                Some(g) => return Ok(g),
                None => {},
            },
        }
        k = k + 1;
    }
    Err(GathererError::NotFound)
}

/// The gatherer of a prefab file's text: the tags are cut, the documents
/// read, and the first gatherer taken as `first_gatherer` does.
pub fn gatherer_from_prefab(text: &str) -> (r: Result<Gatherer, GathererError>)
    ensures
        match r {
            Ok(g) => first_gatherer_of(yaml_documents(yaml_tags_rewritten(text@))) == Ok::<
                _,
                GathererError,
            >(g@),
            Err(e) => first_gatherer_of(yaml_documents(yaml_tags_rewritten(text@))) == Err::<
                (Seq<char>, Seq<char>, i64),
                _,
            >(e),
        },
{
    let contents = rewrite_yaml_tags(text);
    let documents = parse_yaml_documents(contents.as_str());
    first_gatherer(&documents)
}

} // verus!
