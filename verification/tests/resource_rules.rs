use aruna_web::error::RequestError;
use aruna_web::resources::DataClass;
use aruna_web::resources::ResourceType;
use aruna_web::resources::allowed_parent_types;
use aruna_web::resources::data_class_from_number;
use aruna_web::resources::data_class_number;
use aruna_web::resources::parent_required;
use aruna_web::resources::parse_resource_type;
use aruna_web::resources::resource_type_name;

#[test]
fn parse_recognizes_the_four_names() {
    assert_eq!(
        parse_resource_type(&"Project".to_string()),
        Ok(ResourceType::Project)
    );
    assert_eq!(
        parse_resource_type(&"Collection".to_string()),
        Ok(ResourceType::Collection)
    );
    assert_eq!(
        parse_resource_type(&"Dataset".to_string()),
        Ok(ResourceType::Dataset)
    );
    assert_eq!(
        parse_resource_type(&"Object".to_string()),
        Ok(ResourceType::Object)
    );
}

#[test]
fn parse_rejects_unknown_names() {
    assert_eq!(
        parse_resource_type(&"Robot".to_string()),
        Err(RequestError::ValidationError)
    );
    assert_eq!(
        parse_resource_type(&"project".to_string()),
        Err(RequestError::ValidationError)
    );
    assert_eq!(
        parse_resource_type(&String::new()),
        Err(RequestError::ValidationError)
    );
    assert_eq!(
        parse_resource_type(&"Objects".to_string()),
        Err(RequestError::ValidationError)
    );
}

#[test]
fn names_parse_back_to_their_type() {
    for t in [
        ResourceType::Project,
        ResourceType::Collection,
        ResourceType::Dataset,
        ResourceType::Object,
    ] {
        assert_eq!(parse_resource_type(&resource_type_name(t)), Ok(t));
    }
}

#[test]
fn every_type_but_project_requires_a_parent() {
    assert!(!parent_required(ResourceType::Project));
    assert!(parent_required(ResourceType::Collection));
    assert!(parent_required(ResourceType::Dataset));
    assert!(parent_required(ResourceType::Object));
}

#[test]
fn parent_choices_follow_the_hierarchy() {
    assert_eq!(allowed_parent_types(ResourceType::Project), Vec::new());
    assert_eq!(
        allowed_parent_types(ResourceType::Collection),
        vec![ResourceType::Project]
    );
    assert_eq!(
        allowed_parent_types(ResourceType::Dataset),
        vec![ResourceType::Project, ResourceType::Collection]
    );
    assert_eq!(
        allowed_parent_types(ResourceType::Object),
        vec![
            ResourceType::Project,
            ResourceType::Collection,
            ResourceType::Dataset
        ]
    );
}

#[test]
fn data_class_wire_numbers() {
    assert_eq!(data_class_number(DataClass::Public), 1);
    assert_eq!(data_class_number(DataClass::Private), 2);
    assert_eq!(data_class_number(DataClass::Workspace), 4);
    assert_eq!(data_class_number(DataClass::Confidential), 5);
}

#[test]
fn data_class_decoding_round_trips() {
    for c in [
        DataClass::Public,
        DataClass::Private,
        DataClass::Workspace,
        DataClass::Confidential,
    ] {
        assert_eq!(data_class_from_number(data_class_number(c)), Some(c));
    }
    assert_eq!(data_class_from_number(0), None);
    assert_eq!(data_class_from_number(3), None);
    assert_eq!(data_class_from_number(6), None);
    assert_eq!(data_class_from_number(-1), None);
}
