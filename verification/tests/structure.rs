use panduza_core::info::structure::{
    AttributeMode, DeviceStructure, ElementAttribute, ElementInterface, StructuralElement, Topic,
};

#[test]
fn test_breakdown_topic_basic() {
    let topic = "namespace/pza/host/my_device/topic1/subtopic";

    let structure = Topic::from_string(topic);
    assert_eq!(structure.host, "host".to_string());
    assert_eq!(structure.device, "my_device".to_string());
    assert_eq!(
        structure.layers,
        vec!["topic1".to_string(), "subtopic".to_string()]
    );
}

#[test]
fn test_insert_element_basic() {
    let topic = "namespace/pza/host/my_device/topic1";

    let mut structure = DeviceStructure::new();
    structure
        .insert(
            topic.to_string(),
            StructuralElement::Interface(ElementInterface::new("topic1", Vec::new())),
        )
        .unwrap();

    let is_element_exist = structure.is_element_exist(topic).unwrap();
    assert!(is_element_exist);
}

#[test]
fn test_insert_element_multiple_layer() {
    let topic1 = "namespace/pza/host/my_device/topic1";
    let topic2 = "namespace/pza/host/my_device/topic1/topic2";

    let mut structure = DeviceStructure::new();
    structure
        .insert(
            topic1.to_string(),
            StructuralElement::Interface(ElementInterface::new("topic1", Vec::new())),
        )
        .unwrap();

    structure
        .insert(
            topic2.to_string(),
            StructuralElement::Attribute(ElementAttribute::new(
                "topic2",
                "string",
                AttributeMode::AttOnly,
            )),
        )
        .unwrap();

    let is_element1_exist = structure.is_element_exist(topic1).unwrap();
    assert!(is_element1_exist);
    let is_element2_exist = structure.is_element_exist(topic2).unwrap();
    assert!(is_element2_exist);
}
