use rise_of_industry::importer::gatherer::{
    first_gatherer, gatherer_from_prefab, gatherer_of_document, GathererError,
};
use rise_of_industry::importer::yaml::{parse_yaml_documents, YamlNode};

const COAL_MINE: &str = "%YAML 1.1
%TAG !u! tag:unity3d.com,2011:
--- !u!1 &100
GameObject:
  m_Name: CoalGatherer
--- !u!114 &200
MonoBehaviour:
  m_Script: {fileID: 11500000, guid: 6219336138908849fca2c4c8fb8c7e83, type: 3}
  buildingName: COAL MINE
  description: Mines coal.
  baseCost: 225000
";

fn text(s: &str) -> YamlNode {
    YamlNode::Text(s.to_string())
}

fn mapping(entries: Vec<(&str, YamlNode)>) -> YamlNode {
    YamlNode::Mapping(entries.into_iter().map(|(k, v)| (text(k), v)).collect())
}

fn gatherer_document(name: &str, cost: YamlNode) -> YamlNode {
    mapping(vec![(
        "MonoBehaviour",
        mapping(vec![
            ("buildingName", text(name)),
            ("description", text("Mines things.")),
            ("baseCost", cost),
        ]),
    )])
}

#[test]
fn gatherer_from_a_prefab() {
    let gatherer = gatherer_from_prefab(COAL_MINE).unwrap();
    assert_eq!(gatherer.name, "COAL MINE");
    assert_eq!(gatherer.description, "Mines coal.");
    assert_eq!(gatherer.base_cost, 225000);
}

#[test]
fn prefab_documents_are_read_after_the_tags_are_cut() {
    // Unity's tags make the plain reader stop at the first document ...
    let raw = parse_yaml_documents(COAL_MINE);
    assert!(matches!(raw.last(), Some(None)));
    // ... which is why the prefab is read after the rewrite.
    let rewritten = rise_of_industry::importer::yaml::rewrite_yaml_tags(COAL_MINE);
    let documents = parse_yaml_documents(&rewritten);
    assert_eq!(documents.len(), 2);
    assert!(documents.iter().all(|d| d.is_some()));
}

#[test]
fn prefab_without_gatherer() {
    let text = "--- !u!1 &1\nGameObject:\n  m_Name: Rock\n";
    assert_eq!(gatherer_from_prefab(text).err(), Some(GathererError::NotFound));
    assert_eq!(gatherer_from_prefab("").err(), Some(GathererError::NotFound));
}

#[test]
fn prefab_with_a_bad_document_first() {
    let text = "a: [1, 2\n--- !u!114 &2\nMonoBehaviour:\n  buildingName: X\n  description: Y\n  baseCost: 1\n";
    assert_eq!(gatherer_from_prefab(text).err(), Some(GathererError::InvalidDocument));
}

#[test]
fn gatherer_of_documents() {
    let gatherer = gatherer_of_document(&gatherer_document("SAND PIT", YamlNode::Integer(5))).unwrap();
    assert_eq!(gatherer.name, "SAND PIT");
    assert_eq!(gatherer.description, "Mines things.");
    assert_eq!(gatherer.base_cost, 5);

    // The cost must be an integer, the names strings, under MonoBehaviour.
    assert!(gatherer_of_document(&gatherer_document("SAND PIT", YamlNode::OtherNumber)).is_none());
    assert!(gatherer_of_document(&gatherer_document("SAND PIT", text("5"))).is_none());
    assert!(gatherer_of_document(&mapping(vec![("GameObject", mapping(vec![]))])).is_none());
    assert!(gatherer_of_document(&YamlNode::Null).is_none());

    // Tags are looked through.
    let tagged = YamlNode::Tagged(
        "!u!114".to_string(),
        Box::new(gatherer_document("CLAY PIT", YamlNode::Integer(7))),
    );
    assert_eq!(gatherer_of_document(&tagged).unwrap().name, "CLAY PIT");
}

#[test]
fn first_gatherer_in_order() {
    let documents = vec![
        Some(mapping(vec![("GameObject", YamlNode::Null)])),
        Some(gatherer_document("FIRST", YamlNode::Integer(1))),
        Some(gatherer_document("SECOND", YamlNode::Integer(2))),
        None,
    ];
    assert_eq!(first_gatherer(&documents).unwrap().name, "FIRST");
    // A document that could not be read stops the search when it comes first.
    let documents = vec![None, Some(gatherer_document("LATE", YamlNode::Integer(1)))];
    assert_eq!(first_gatherer(&documents).err(), Some(GathererError::InvalidDocument));
    assert_eq!(first_gatherer(&vec![]).err(), Some(GathererError::NotFound));
}
