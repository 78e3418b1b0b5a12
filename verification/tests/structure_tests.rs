use termineer::tools::ui::structure::{try_format_xml, UIElement, UIWindow};

#[test]
fn element_xml_has_attributes_and_escaped_text() {
    let mut e = UIElement::new("button");
    e.identifier = Some("b1".to_string());
    e.position = Some((1, -2));
    e.enabled = Some(true);
    e.title = Some("Hi & bye".to_string());
    e.attributes.push(("role".to_string(), "<ok>".to_string()));
    let mut child = UIElement::new("text");
    child.value = Some("v".to_string());
    e.children.push(child);
    assert_eq!(
        e.to_xml().unwrap(),
        "<UIElement type=\"button\" id=\"b1\" x=\"1\" y=\"-2\" enabled=\"true\">\
         <title>Hi &amp; bye</title>\
         <attribute name=\"role\">&lt;ok&gt;</attribute>\
         <UIElement type=\"text\"><value>v</value></UIElement>\
         </UIElement>"
    );
}

#[test]
fn window_xml_events_are_declaration_root_and_window() {
    let w = UIWindow {
        app_name: "A".to_string(),
        window_title: "T".to_string(),
        position: (0, 0),
        size: (10, 20),
        ui_tree: None,
    };
    assert_eq!(w.xml_events().len(), 5);
    // The indenter subtracts the bytes written from the bytes read; on this
    // document the difference goes below zero.
    assert!(w.to_xml().is_none());
}

#[test]
fn indenter_keeps_tags_and_compresses_spaces() {
    assert_eq!(try_format_xml(""), Some(String::new()));
    assert_eq!(try_format_xml("<a>b  c"), Some("<a>b c".to_string()));
    assert_eq!(try_format_xml("<a>b\n\nc"), Some("<a>bc".to_string()));
    assert_eq!(try_format_xml("<a/>"), Some("<a/>".to_string()));
    assert_eq!(try_format_xml("<?x?>y"), Some("<?x?>y".to_string()));
    assert_eq!(UIWindow::format_xml_string("<a>"), Ok("<a>".to_string()));
    assert_eq!(try_format_xml("<a><b>x</b></a>"), None);
}
