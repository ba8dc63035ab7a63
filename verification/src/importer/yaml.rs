//! Unity writes its asset files as YAML documents whose separators carry
//! Unity tags (`--- !u!114 &11400000`) that a plain YAML reader rejects.

use vstd::prelude::*;

verus! {

/// The position of the first line break in `s`, or its length.
pub open spec fn line_end(s: Seq<char>) -> nat
    decreases s.len(),
{
    if s.len() == 0 {
        0
    } else if s[0] == '\n' {
        0
    } else {
        1 + line_end(s.drop_first())
    }
}

/// A line that starts with `---` becomes just `---`; others stay.
pub open spec fn rewrite_line(line: Seq<char>) -> Seq<char> {
    if line.len() >= 3 && line.take(3) == seq!['-', '-', '-'] {
        seq!['-', '-', '-']
    } else {
        line
    }
}

/// `s` with every line that starts with `---` cut down to `---`; lines are
/// separated by `\n`, which stays.
pub open spec fn yaml_tags_rewritten(s: Seq<char>) -> Seq<char>
    decreases s.len(),
{
    let e = line_end(s);
    if e >= s.len() {
        rewrite_line(s)
    } else {
        rewrite_line(s.take(e as int)) + seq!['\n'] + yaml_tags_rewritten(s.skip(e + 1 as int))
    }
}

/// `s` holds no line break.
pub open spec fn no_line_break(s: Seq<char>) -> bool {
    forall|i: int| 0 <= i < s.len() ==> s[i] != '\n'
}

/// The first line break of `s` is at `line_end(s)`; none comes before it.
proof fn lemma_line_end_is_first_break(s: Seq<char>)
    ensures
        line_end(s) <= s.len(),
        forall|i: int| 0 <= i < line_end(s) ==> s[i] != '\n',
        line_end(s) < s.len() ==> s[line_end(s) as int] == '\n',
    decreases s.len(),
{
    if s.len() > 0 && s[0] != '\n' {
        lemma_line_end_is_first_break(s.drop_first());
        assert forall|i: int| 0 <= i < line_end(s) implies s[i] != '\n' by {
            if i > 0 {
                assert(s[i] == s.drop_first()[i - 1]);
            }
        }
    }
}

/// A line with no break in it, followed by a break, ends at its length.
proof fn lemma_line_end_of_line(line: Seq<char>, rest: Seq<char>)
    requires
        no_line_break(line),
    ensures
        line_end(line + rest) == line.len() + line_end(rest),
    decreases line.len(),
{
    if line.len() > 0 {
        assert((line + rest).drop_first() =~= line.drop_first() + rest);
        lemma_line_end_of_line(line.drop_first(), rest);
    } else {
        assert(line + rest =~= rest);
    }
}

/// Rewriting a line keeps it free of breaks and leaves a rewritten line
/// as it is.
proof fn lemma_rewrite_line(line: Seq<char>)
    requires
        no_line_break(line),
    ensures
        no_line_break(rewrite_line(line)),
        rewrite_line(rewrite_line(line)) == rewrite_line(line),
{
    let dashes = seq!['-', '-', '-'];
    if line.len() >= 3 && line.take(3) == dashes {
        assert(dashes.take(3) =~= dashes);
    }
}

/// Rewriting the tags of text whose tags were rewritten changes nothing:
/// every line that starts with `---` is `---` already.
pub proof fn lemma_yaml_tags_rewritten_idempotent(s: Seq<char>)
    ensures
        yaml_tags_rewritten(yaml_tags_rewritten(s)) == yaml_tags_rewritten(s),
    decreases s.len(),
{
    lemma_line_end_is_first_break(s);
    let e = line_end(s);
    let line = s.take(e as int);
    assert(no_line_break(line));
    lemma_rewrite_line(line);
    let first = rewrite_line(line);
    if e >= s.len() {
        assert(line =~= s);
        lemma_line_end_of_line(first, Seq::empty());
        assert(first + Seq::<char>::empty() =~= first);
        assert(line_end(first) == first.len());
    } else {
        let rest = s.skip(e + 1 as int);
        let out = yaml_tags_rewritten(s);
        let tail = yaml_tags_rewritten(rest);
        assert(out == first + seq!['\n'] + tail);
        lemma_line_end_of_line(first, seq!['\n'] + tail);
        assert(out =~= first + (seq!['\n'] + tail));
        assert(line_end(out) == first.len());
        assert(out.take(first.len() as int) =~= first);
        assert(out.skip(first.len() + 1 as int) =~= tail);
        lemma_yaml_tags_rewritten_idempotent(rest);
    }
}

/// Cuts every document separator down to a bare `---`, so that the YAML
/// reader accepts Unity's asset and prefab files. This replaces every match
/// of the regex `^---.*$` in multi-line mode by `---`, using the `regex`
/// crate: in that mode `^` and `$` also match just after and just before a
/// `\n`, and `.` matches any char but `\n`, so each line that starts with
/// `---` loses everything after those three chars.
#[verifier::external_body]
pub fn rewrite_yaml_tags(value: &str) -> (r: String)
    ensures
        r@ == yaml_tags_rewritten(value@),
{
    let regex = regex::RegexBuilder::new("^---.*$").multi_line(true).build().unwrap();
    regex.replace_all(value, "---").into_owned()
}

/// A YAML node as plain values: what a parsed document holds.
#[derive(Debug)]
pub enum YamlNode {
    Null,
    Bool(bool),
    /// A number that is an integer in the range of `i64`.
    Integer(i64),
    /// Any other number: a float, or an integer beyond `i64`.
    OtherNumber,
    Text(String),
    Sequence(Vec<YamlNode>),
    /// The entries of a mapping, in the order they were written; no two
    /// keys are equal.
    Mapping(Vec<(YamlNode, YamlNode)>),
    /// A node with a `!tag`.
    Tagged(String, Box<YamlNode>),
}

#[verifier::external_type_specification]
#[verifier::external_body]
pub struct ExYamlValue(serde_yaml::Value);

/// What serde_yaml reads from `text`, document by document, in order: a
/// document as its node, or `None` for the first document that cannot be
/// read, after which no more are read.
pub uninterp spec fn yaml_documents(text: Seq<char>) -> Seq<Option<YamlNode>>;

/// `serde_yaml::Value` as a `YamlNode`, variant by variant: a number
/// becomes `Integer` when `Number::as_i64` gives one, and a tag is written
/// as `Tag`'s `Display` writes it.
#[verifier::external_body]
fn yaml_node(value: serde_yaml::Value) -> YamlNode {
    match value {
        serde_yaml::Value::Null => YamlNode::Null,
        serde_yaml::Value::Bool(b) => YamlNode::Bool(b),
        serde_yaml::Value::Number(n) => match n.as_i64() {
            Some(i) => YamlNode::Integer(i),
            None => YamlNode::OtherNumber,
        },
        serde_yaml::Value::String(s) => YamlNode::Text(s),
        serde_yaml::Value::Sequence(items) => YamlNode::Sequence(items.into_iter().map(yaml_node).collect()),
        serde_yaml::Value::Mapping(entries) => YamlNode::Mapping(entries.into_iter().map(|(k, v)| (yaml_node(k), yaml_node(v))).collect()),
        serde_yaml::Value::Tagged(t) => YamlNode::Tagged(t.tag.to_string(), Box::new(yaml_node(t.value))),
    }
}

/// The documents of `text` as serde_yaml reads them (`Deserializer::from_str`,
/// then `Value::deserialize` of each document), stopping after the first
/// document that cannot be read, which comes back as `None`. serde_yaml's
/// reading depends on the text alone; what it gives is named, not stated.
#[verifier::external_body]
pub fn parse_yaml_documents(text: &str) -> (r: Vec<Option<YamlNode>>)
    ensures
        r@ == yaml_documents(text@),
{
    let mut documents = Vec::new();
    for document in serde_yaml::Deserializer::from_str(text) {
        match <serde_yaml::Value as serde::Deserialize>::deserialize(document) {
            Ok(value) => documents.push(Some(yaml_node(value))),
            Err(_) => {
                documents.push(None);
                break;
            },
        }
    }
    documents
}

} // verus!
