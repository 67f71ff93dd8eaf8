use alarm_dot_com::models::jsonapi::{
    ApiError, ApiResponse, ErrorDocument, MultiDocument, Relationship, RelationshipData,
    Relationships, Resource, ResourceIdentifier, SingleDocument,
};

fn ident(id: &str, ty: &str) -> ResourceIdentifier {
    ResourceIdentifier { id: id.to_string(), resource_type: ty.to_string() }
}

fn resource(id: &str, ty: &str, entries: Vec<(String, Relationship)>) -> Resource {
    let mut relationships = Relationships::new();
    for (k, v) in entries {
        relationships.insert(k, v);
    }
    Resource {
        id: id.to_string(),
        resource_type: ty.to_string(),
        attributes: serde_json::Value::Object(serde_json::Map::new()),
        relationships,
    }
}

#[test]
fn resource_related_ids() {
    let res = resource(
        "sys-1",
        "systems/system",
        vec![
            (
                "partitions".to_string(),
                Relationship {
                    data: RelationshipData::Many(vec![
                        ident("p-1", "devices/partition"),
                        ident("p-2", "devices/partition"),
                    ]),
                },
            ),
            (
                "primaryLock".to_string(),
                Relationship { data: RelationshipData::Single(ident("l-1", "devices/lock")) },
            ),
        ],
    );
    assert_eq!(res.related_ids("partitions"), vec!["p-1", "p-2"]);
    assert_eq!(res.related_ids("primaryLock"), vec!["l-1"]);
    assert!(res.related_ids("nonexistent").is_empty());
}

#[test]
fn related_ids_of_null_relationship_is_empty() {
    let res = resource(
        "1",
        "devices/partition",
        vec![("system".to_string(), Relationship { data: RelationshipData::Null })],
    );
    assert!(res.related_ids("system").is_empty());
}

#[test]
fn relationship_insert_replaces_value_of_a_key() {
    let mut rels = Relationships::new();
    let old = rels.insert(
        "a".to_string(),
        Relationship { data: RelationshipData::Single(ident("x", "t")) },
    );
    assert!(old.is_none());
    rels.insert("b".to_string(), Relationship { data: RelationshipData::Null });
    let old = rels.insert(
        "a".to_string(),
        Relationship { data: RelationshipData::Single(ident("y", "t")) },
    );
    assert!(matches!(old, Some(Relationship { data: RelationshipData::Single(i) }) if i.id == "x"));
    assert_eq!(rels.len(), 2);
    let keys: Vec<&str> = rels.entries().iter().map(|(k, _)| k.as_str()).collect();
    assert_eq!(keys, vec!["a", "b"]);
    let res = Resource {
        id: "1".to_string(),
        resource_type: "devices/partition".to_string(),
        attributes: serde_json::Value::Null,
        relationships: rels,
    };
    assert_eq!(res.related_ids("a"), vec!["y"]);
}

#[test]
fn resources_of_single_document() {
    let resp = ApiResponse::Single(SingleDocument {
        data: resource("123", "devices/partition", vec![]),
        included: vec![resource("9", "devices/sensor", vec![])],
    });
    let resources = resp.resources();
    assert_eq!(resources.len(), 1);
    assert_eq!(resources[0].id, "123");
    assert_eq!(resp.included().len(), 1);
    assert_eq!(resp.included()[0].id, "9");
}

#[test]
fn resources_of_multi_document() {
    let resp = ApiResponse::Multi(MultiDocument {
        data: vec![resource("1", "devices/sensor", vec![]), resource("2", "devices/sensor", vec![])],
        included: vec![],
    });
    let resources = resp.resources();
    assert_eq!(resources.len(), 2);
    assert_eq!(resources[0].id, "1");
    assert_eq!(resources[1].id, "2");
    assert!(resp.included().is_empty());
}

#[test]
fn resources_of_error_document_are_empty() {
    let resp = ApiResponse::Error(ErrorDocument {
        errors: vec![ApiError {
            status: Some("401".to_string()),
            code: Some("401".to_string()),
            title: Some("Unauthorized".to_string()),
            detail: None,
        }],
    });
    assert!(resp.resources().is_empty());
    assert!(resp.included().is_empty());
}
