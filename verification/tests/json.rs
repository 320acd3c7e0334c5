use deploy_gateway::json::JsonValue;

fn object(members: Vec<(&str, JsonValue)>) -> JsonValue {
    JsonValue::Object(members.into_iter().map(|(name, value)| (name.to_string(), value)).collect())
}

#[test]
fn text_holds_the_string() {
    assert_eq!(JsonValue::text("apps/v1"), JsonValue::Text("apps/v1".to_string()));
    assert_eq!(JsonValue::text(""), JsonValue::Text(String::new()));
}

#[test]
fn array_and_object_hold_what_they_are_given() {
    assert_eq!(
        JsonValue::array(vec![JsonValue::Null, JsonValue::Bool(true)]),
        JsonValue::Array(vec![JsonValue::Null, JsonValue::Bool(true)])
    );
    assert_eq!(
        JsonValue::object(vec![("a".to_string(), JsonValue::Integer(1))]),
        object(vec![("a", JsonValue::Integer(1))])
    );
}

#[test]
fn singleton_has_one_member() {
    assert_eq!(
        JsonValue::singleton("spec", JsonValue::Integer(-7)),
        object(vec![("spec", JsonValue::Integer(-7))])
    );
}

#[test]
fn texts_keep_their_order() {
    let names = vec!["nginx".to_string(), "redis".to_string(), "nginx".to_string()];
    assert_eq!(
        JsonValue::texts(&names),
        JsonValue::Array(vec![
            JsonValue::text("nginx"),
            JsonValue::text("redis"),
            JsonValue::text("nginx"),
        ])
    );
    assert_eq!(JsonValue::texts(&Vec::new()), JsonValue::Array(Vec::new()));
}

#[test]
fn without_member_drops_every_member_of_that_name() {
    let document = object(vec![
        ("managedFields", JsonValue::Integer(1)),
        ("name", JsonValue::text("checkout")),
        ("managedFields", JsonValue::Integer(2)),
        ("labels", object(vec![("managedFields", JsonValue::Null)])),
    ]);
    assert_eq!(
        document.without_member("managedFields"),
        object(vec![
            ("name", JsonValue::text("checkout")),
            ("labels", object(vec![("managedFields", JsonValue::Null)])),
        ])
    );
}

#[test]
fn without_member_leaves_other_documents_alone() {
    assert_eq!(JsonValue::Null.without_member("a"), JsonValue::Null);
    assert_eq!(JsonValue::text("a").without_member("a"), JsonValue::text("a"));
    assert_eq!(
        JsonValue::Array(vec![JsonValue::text("a")]).without_member("a"),
        JsonValue::Array(vec![JsonValue::text("a")])
    );
    assert_eq!(
        object(vec![("b", JsonValue::Real(4611686018427387904))]).without_member("a"),
        object(vec![("b", JsonValue::Real(4611686018427387904))])
    );
    assert_eq!(object(vec![]).without_member("a"), object(vec![]));
}

#[test]
fn member_names_are_compared_letter_for_letter() {
    let document = object(vec![
        ("ManagedFields", JsonValue::Null),
        ("managedFields ", JsonValue::Null),
        ("managedFields", JsonValue::Null),
    ]);
    assert_eq!(
        document.without_member("managedFields"),
        object(vec![("ManagedFields", JsonValue::Null), ("managedFields ", JsonValue::Null)])
    );
}

#[test]
fn clone_is_the_same_document() {
    let document = object(vec![
        ("name", JsonValue::text("checkout")),
        ("replicas", JsonValue::Integer(3)),
        ("ratio", JsonValue::Real(4602678819172646912)),
        ("ready", JsonValue::Bool(false)),
        ("owner", JsonValue::Null),
        (
            "containers",
            JsonValue::Array(vec![
                object(vec![("image", JsonValue::text("nginx:1.25"))]),
                JsonValue::Array(vec![]),
            ]),
        ),
        ("name", JsonValue::text("again")),
    ]);
    let copy = document.clone();
    assert_eq!(copy, document);
    assert_eq!(
        copy.without_member("name"),
        object(vec![
            ("replicas", JsonValue::Integer(3)),
            ("ratio", JsonValue::Real(4602678819172646912)),
            ("ready", JsonValue::Bool(false)),
            ("owner", JsonValue::Null),
            (
                "containers",
                JsonValue::Array(vec![
                    object(vec![("image", JsonValue::text("nginx:1.25"))]),
                    JsonValue::Array(vec![]),
                ]),
            ),
        ])
    );
}
