use binxml_output::errors::OutputError;
use binxml_output::model::XmlAttribute;
use binxml_output::model::XmlElement;
use binxml_output::serde_output::SerdeOutput;
use binxml_output::xml_output::BinXMLOutput;
use binxml_output::xml_output::XMLOutput;

fn elem(name: &str, attrs: &[(&str, &str)]) -> XmlElement {
    let mut attributes = Vec::new();
    for (n, v) in attrs {
        attributes.push(XmlAttribute { name: n.to_string(), value: v.to_string() });
    }
    XmlElement { name: name.to_string(), attributes }
}

fn json_of(out: &[u8]) -> serde_json::Value {
    serde_json::from_slice(out).expect("adapter output must be valid JSON")
}

#[test]
fn leaf_promotion_yields_scalar_member() {
    let mut a = SerdeOutput::with_writer(Vec::new());
    a.visit_start_of_stream().unwrap();
    a.visit_open_start_element(&elem("Task", &[])).unwrap();
    a.visit_characters("12288").unwrap();
    a.visit_close_element().unwrap();
    a.visit_end_of_stream().unwrap();
    let out = a.into_writer().unwrap();
    assert_eq!(String::from_utf8(out).unwrap(), "{\n  \"Task\": \"12288\"\n}");
}

#[test]
fn attributes_and_text_coexist() {
    let mut a = SerdeOutput::with_writer(Vec::new());
    a.visit_start_of_stream().unwrap();
    a.visit_open_start_element(&elem("EventID", &[("Qualifiers", "")])).unwrap();
    a.visit_characters("4902").unwrap();
    a.visit_close_element().unwrap();
    a.visit_end_of_stream().unwrap();
    let out = a.into_writer().unwrap();

    let mut attrs = serde_json::Map::new();
    attrs.insert("Qualifiers".to_string(), serde_json::Value::String(String::new()));
    let mut event_id = serde_json::Map::new();
    event_id.insert("#attributes".to_string(), serde_json::Value::Object(attrs));
    event_id.insert("#text".to_string(), serde_json::Value::String("4902".to_string()));
    let mut root = serde_json::Map::new();
    root.insert("EventID".to_string(), serde_json::Value::Object(event_id));
    assert_eq!(json_of(&out), serde_json::Value::Object(root));
}

#[test]
fn data_node_keyed_by_name_attribute() {
    let mut a = SerdeOutput::with_writer(Vec::new());
    a.visit_start_of_stream().unwrap();
    a.visit_open_start_element(&elem("Data", &[("Name", "Foo")])).unwrap();
    a.visit_characters("bar").unwrap();
    a.visit_close_element().unwrap();
    a.visit_end_of_stream().unwrap();
    let out = a.into_writer().unwrap();

    let mut root = serde_json::Map::new();
    root.insert("Foo".to_string(), serde_json::Value::String("bar".to_string()));
    assert_eq!(json_of(&out), serde_json::Value::Object(root));
}

#[test]
fn nested_elements_build_nested_objects() {
    let mut a = SerdeOutput::with_writer(Vec::new());
    a.visit_start_of_stream().unwrap();
    a.visit_open_start_element(&elem("Event", &[])).unwrap();
    a.visit_open_start_element(&elem("System", &[])).unwrap();
    a.visit_open_start_element(&elem("Computer", &[])).unwrap();
    a.visit_characters("host-1").unwrap();
    a.visit_close_element().unwrap();
    a.visit_close_element().unwrap();
    a.visit_close_element().unwrap();
    a.visit_end_of_stream().unwrap();
    let out = a.into_writer().unwrap();

    let mut system = serde_json::Map::new();
    system.insert("Computer".to_string(), serde_json::Value::String("host-1".to_string()));
    let mut event = serde_json::Map::new();
    event.insert("System".to_string(), serde_json::Value::Object(system));
    let mut root = serde_json::Map::new();
    root.insert("Event".to_string(), serde_json::Value::Object(event));
    assert_eq!(json_of(&out), serde_json::Value::Object(root));
}

#[test]
fn empty_stream_yields_empty_object() {
    let mut a = SerdeOutput::with_writer(Vec::new());
    a.visit_start_of_stream().unwrap();
    a.visit_end_of_stream().unwrap();
    let out = a.into_writer().unwrap();
    assert_eq!(String::from_utf8(out).unwrap(), "{}");
}

#[test]
fn sibling_key_collision_is_last_write_wins() {
    let mut a = SerdeOutput::with_writer(Vec::new());
    a.visit_start_of_stream().unwrap();
    a.visit_open_start_element(&elem("Data", &[("Name", "Foo")])).unwrap();
    a.visit_characters("first").unwrap();
    a.visit_close_element().unwrap();
    a.visit_open_start_element(&elem("Data", &[("Name", "Foo")])).unwrap();
    a.visit_characters("second").unwrap();
    a.visit_close_element().unwrap();
    a.visit_end_of_stream().unwrap();
    let out = a.into_writer().unwrap();

    let mut root = serde_json::Map::new();
    root.insert("Foo".to_string(), serde_json::Value::String("second".to_string()));
    assert_eq!(json_of(&out), serde_json::Value::Object(root));
}

#[test]
fn data_node_without_name_attribute_is_invariant_violation() {
    let mut a = SerdeOutput::with_writer(Vec::new());
    a.visit_start_of_stream().unwrap();
    let r = a.visit_open_start_element(&elem("Data", &[]));
    assert!(matches!(r, Err(OutputError::InvariantViolation)));
}

#[test]
fn opening_under_text_leaf_is_invariant_violation() {
    let mut a = SerdeOutput::with_writer(Vec::new());
    a.visit_start_of_stream().unwrap();
    a.visit_open_start_element(&elem("Task", &[])).unwrap();
    a.visit_characters("12288").unwrap();
    let r = a.visit_open_start_element(&elem("Sub", &[]));
    assert!(matches!(r, Err(OutputError::InvariantViolation)));
}

#[test]
fn tree_pre_eof_finalization_is_incomplete_output() {
    let mut a = SerdeOutput::with_writer(Vec::new());
    a.visit_start_of_stream().unwrap();
    assert!(matches!(a.into_writer(), Err(OutputError::IncompleteOutput)));
}

#[test]
fn tree_unclosed_element_at_finalization_is_invalid_state() {
    let mut a = SerdeOutput::with_writer(Vec::new());
    a.visit_start_of_stream().unwrap();
    a.visit_open_start_element(&elem("Event", &[])).unwrap();
    a.visit_end_of_stream().unwrap();
    assert!(matches!(a.into_writer(), Err(OutputError::InvalidState)));
}

#[test]
fn tree_event_after_eof_is_invalid_state() {
    let mut a = SerdeOutput::with_writer(Vec::new());
    a.visit_start_of_stream().unwrap();
    a.visit_end_of_stream().unwrap();
    assert!(matches!(
        a.visit_open_start_element(&elem("Late", &[])),
        Err(OutputError::InvalidState)
    ));
    assert!(matches!(a.visit_characters("x"), Err(OutputError::InvalidState)));
    assert!(matches!(a.visit_close_element(), Err(OutputError::InvalidState)));
    assert!(matches!(a.visit_start_of_stream(), Err(OutputError::InvalidState)));
}

#[test]
fn tree_unsupported_events_are_refused() {
    let mut a = SerdeOutput::with_writer(Vec::new());
    a.visit_start_of_stream().unwrap();
    assert!(matches!(a.visit_cdata_section(), Err(OutputError::Unsupported)));
    assert!(matches!(a.visit_entity_reference(), Err(OutputError::Unsupported)));
    assert!(matches!(
        a.visit_processing_instruction_target(),
        Err(OutputError::Unsupported)
    ));
    assert!(matches!(
        a.visit_processing_instruction_data(),
        Err(OutputError::Unsupported)
    ));
}

#[test]
fn balanced_pairs_finalize_on_both_adapters() {
    let mut t = SerdeOutput::with_writer(Vec::new());
    let mut x = XMLOutput::with_writer(Vec::new());
    t.visit_start_of_stream().unwrap();
    x.visit_start_of_stream().unwrap();
    for (open, name) in [
        (true, "Event"),
        (true, "System"),
        (false, ""),
        (true, "EventData"),
        (false, ""),
        (false, ""),
    ] {
        if open {
            t.visit_open_start_element(&elem(name, &[])).unwrap();
            x.visit_open_start_element(&elem(name, &[])).unwrap();
        } else {
            t.visit_close_element().unwrap();
            x.visit_close_element().unwrap();
        }
    }
    t.visit_end_of_stream().unwrap();
    x.visit_end_of_stream().unwrap();
    assert!(t.into_writer().is_ok());
    assert!(x.into_writer().is_ok());
}

#[test]
fn xml_empty_element_is_not_self_closed_and_uses_crlf() {
    let mut x = XMLOutput::with_writer(Vec::new());
    x.visit_start_of_stream().unwrap();
    x.visit_open_start_element(&elem("Empty", &[])).unwrap();
    x.visit_close_element().unwrap();
    x.visit_end_of_stream().unwrap();
    let out = String::from_utf8(x.into_writer().unwrap()).unwrap();
    // the element is emitted as an open tag and a close tag, never
    // normalized to a self-closed tag
    assert!(out.contains("<Empty>"), "output was: {out}");
    assert!(out.contains("</Empty>"), "output was: {out}");
    assert!(!out.contains("<Empty/>"));
    assert!(!out.contains("<Empty />"));
    assert!(out.contains("\r\n"));
    assert!(!out.replace("\r\n", "").contains('\n'));
}

#[test]
fn xml_attributes_keep_their_order() {
    let mut x = XMLOutput::with_writer(Vec::new());
    x.visit_start_of_stream().unwrap();
    x.visit_open_start_element(&elem("Provider", &[("Name", "P"), ("Guid", "G")])).unwrap();
    x.visit_characters("body").unwrap();
    x.visit_close_element().unwrap();
    x.visit_end_of_stream().unwrap();
    let out = String::from_utf8(x.into_writer().unwrap()).unwrap();
    assert!(out.contains("<Provider Name=\"P\" Guid=\"G\">"), "output was: {out}");
    assert!(out.contains("body"));
    assert!(out.contains("</Provider>"));
}

#[test]
fn xml_pre_eof_finalization_is_incomplete_output() {
    let mut x = XMLOutput::with_writer(Vec::new());
    x.visit_start_of_stream().unwrap();
    x.visit_open_start_element(&elem("Event", &[])).unwrap();
    assert!(matches!(x.into_writer(), Err(OutputError::IncompleteOutput)));
}

#[test]
fn xml_event_after_eof_is_invalid_state() {
    let mut x = XMLOutput::with_writer(Vec::new());
    x.visit_start_of_stream().unwrap();
    x.visit_end_of_stream().unwrap();
    assert!(matches!(
        x.visit_open_start_element(&elem("Late", &[])),
        Err(OutputError::InvalidState)
    ));
    assert!(matches!(x.visit_characters("x"), Err(OutputError::InvalidState)));
    assert!(matches!(x.visit_close_element(), Err(OutputError::InvalidState)));
    assert!(matches!(x.visit_start_of_stream(), Err(OutputError::InvalidState)));
}

#[test]
fn xml_unsupported_events_are_refused() {
    let mut x = XMLOutput::with_writer(Vec::new());
    x.visit_start_of_stream().unwrap();
    assert!(matches!(x.visit_cdata_section(), Err(OutputError::Unsupported)));
    assert!(matches!(x.visit_entity_reference(), Err(OutputError::Unsupported)));
    assert!(matches!(
        x.visit_processing_instruction_target(),
        Err(OutputError::Unsupported)
    ));
    assert!(matches!(
        x.visit_processing_instruction_data(),
        Err(OutputError::Unsupported)
    ));
}

#[test]
fn protocol_trait_drives_both_adapters() {
    fn drive<A: BinXMLOutput<Vec<u8>>>() -> Vec<u8> {
        let mut a = A::with_writer(Vec::new());
        a.visit_start_of_stream().unwrap();
        a.visit_open_start_element(&XmlElement {
            name: "Root".to_string(),
            attributes: vec![],
        })
        .unwrap();
        a.visit_characters("v").unwrap();
        a.visit_close_element().unwrap();
        a.visit_end_of_stream().unwrap();
        a.into_writer().unwrap()
    }
    let json = drive::<SerdeOutput<Vec<u8>>>();
    assert_eq!(String::from_utf8(json).unwrap(), "{\n  \"Root\": \"v\"\n}");
    let xml_text = String::from_utf8(drive::<XMLOutput<Vec<u8>>>()).unwrap();
    assert!(xml_text.contains("<Root>"));
    assert!(xml_text.contains("</Root>"));
}

#[test]
fn characters_on_attribute_bearing_sibling_text_leaf_is_refused() {
    // text written to a node, then more text again is an overwrite of
    // "#text" only when the node is an object; on a plain leaf the second
    // write is refused
    let mut a = SerdeOutput::with_writer(Vec::new());
    a.visit_start_of_stream().unwrap();
    a.visit_open_start_element(&elem("Task", &[])).unwrap();
    a.visit_characters("one").unwrap();
    let r = a.visit_characters("two");
    assert!(matches!(r, Err(OutputError::InvariantViolation)));
}

#[test]
fn characters_overwrite_text_entry_on_attribute_bearing_node() {
    let mut a = SerdeOutput::with_writer(Vec::new());
    a.visit_start_of_stream().unwrap();
    a.visit_open_start_element(&elem("EventID", &[("Qualifiers", "q")])).unwrap();
    a.visit_characters("one").unwrap();
    a.visit_characters("two").unwrap();
    a.visit_close_element().unwrap();
    a.visit_end_of_stream().unwrap();
    let out = a.into_writer().unwrap();

    let mut attrs = serde_json::Map::new();
    attrs.insert("Qualifiers".to_string(), serde_json::Value::String("q".to_string()));
    let mut event_id = serde_json::Map::new();
    event_id.insert("#attributes".to_string(), serde_json::Value::Object(attrs));
    event_id.insert("#text".to_string(), serde_json::Value::String("two".to_string()));
    let mut root = serde_json::Map::new();
    root.insert("EventID".to_string(), serde_json::Value::Object(event_id));
    assert_eq!(json_of(&out), serde_json::Value::Object(root));
}

#[test]
fn unresolved_element_serializes_as_null() {
    let mut a = SerdeOutput::with_writer(Vec::new());
    a.visit_start_of_stream().unwrap();
    a.visit_open_start_element(&elem("Correlation", &[])).unwrap();
    a.visit_close_element().unwrap();
    a.visit_end_of_stream().unwrap();
    let out = a.into_writer().unwrap();

    let mut root = serde_json::Map::new();
    root.insert("Correlation".to_string(), serde_json::Value::Null);
    assert_eq!(json_of(&out), serde_json::Value::Object(root));
}

#[test]
fn data_node_drops_its_other_attributes() {
    let mut a = SerdeOutput::with_writer(Vec::new());
    a.visit_start_of_stream().unwrap();
    a.visit_open_start_element(&elem("Data", &[("Name", "Foo"), ("Extra", "1")])).unwrap();
    a.visit_characters("bar").unwrap();
    a.visit_close_element().unwrap();
    a.visit_end_of_stream().unwrap();
    let out = a.into_writer().unwrap();

    let mut root = serde_json::Map::new();
    root.insert("Foo".to_string(), serde_json::Value::String("bar".to_string()));
    assert_eq!(json_of(&out), serde_json::Value::Object(root));
}
