use qmk_xap::codegen::route::{
    level_keys_ascend, merge_all, BroadcastMessage, Route, RouteType, Spec, StructMember, TypeDefinition,
};
use qmk_xap::codegen::{
    normalize_route_name, parse_dec, parse_route_id, parse_xap_version, render_id, BasicType,
    CodegenError,
};
use qmk_xap::status::XapVersion;

fn route(id: &[u8], name: &str, route_type: RouteType) -> Route {
    Route {
        id: id.to_vec(),
        xap_version: None,
        name: Some(name.to_owned()),
        description: None,
        route_type: Some(route_type),
        routes: vec![],
        return_type: BasicType::Unit,
        return_struct_members: vec![],
        return_purpose: None,
        request_type: BasicType::Unit,
        request_struct_members: vec![],
    }
}

fn version(v: u32) -> XapVersion {
    XapVersion::try_from(v).unwrap()
}

#[test]
fn basic_types_render_as_rust_types() {
    assert_eq!(BasicType::Unit.as_type(), "()");
    assert_eq!(BasicType::U16.as_type(), "u16");
    assert_eq!(BasicType::String.as_type(), "UTF8String");
    assert_eq!(BasicType::Struct.as_type(), "Struct");
    assert_eq!(
        BasicType::Array(Box::new(BasicType::U8), 32).as_type(),
        "[u8; 32]"
    );
    assert_eq!(BasicType::Predefined("Token".to_owned()).as_type(), "Token");
}

#[test]
fn basic_types_are_read() {
    assert_eq!(BasicType::parse("u8").unwrap().as_type(), "u8");
    assert_eq!(BasicType::parse("u64").unwrap().as_type(), "u64");
    assert_eq!(BasicType::parse("string").unwrap().as_type(), "UTF8String");
    assert_eq!(BasicType::parse("struct").unwrap().as_type(), "Struct");
    assert_eq!(BasicType::parse("u32[4]").unwrap().as_type(), "[u32; 4]");
    assert_eq!(BasicType::parse("u8[2][3]").unwrap_err(), CodegenError::LengthNotANumber);
    assert_eq!(BasicType::parse("Token").unwrap().as_type(), "Token");
    assert_eq!(BasicType::parse("u8[32").unwrap_err(), CodegenError::MissingClosingBracket);
    assert_eq!(BasicType::parse("u8[x]").unwrap_err(), CodegenError::LengthNotANumber);
}

#[test]
fn decimal_numbers() {
    let digits: Vec<char> = "1234".chars().collect();
    assert_eq!(parse_dec(&digits, 10_000), Some(1234));
    assert_eq!(parse_dec(&digits, 1000), None);
    assert_eq!(parse_dec(&vec![], 10), None);
    assert_eq!(parse_dec(&"1a".chars().collect(), 100), None);
}

#[test]
fn route_ids_render_as_hex_bytes() {
    assert_eq!(render_id(&[0x06, 0x03, 0x1e]), "06, 03, 1e");
    assert_eq!(render_id(&[0x00]), "00");
    assert_eq!(render_id(&[]), "");
}

#[test]
fn versions_are_read() {
    assert_eq!(parse_xap_version("0.3.0").unwrap().value(), 0x0300);
    assert_eq!(parse_xap_version("0.0.1").unwrap().value(), 0x01);
    assert_eq!(parse_xap_version("0.2.0.9").unwrap().value(), 0x0200);
    assert_eq!(parse_xap_version("0.4.0").unwrap_err(), CodegenError::InvalidVersion(0x0400));
    assert_eq!(parse_xap_version("0.x.0").unwrap_err(), CodegenError::InvalidVersionDigit);
    assert_eq!(parse_xap_version("0.256.0").unwrap_err(), CodegenError::InvalidVersionDigit);
}

#[test]
fn route_names_and_ids() {
    assert_eq!(normalize_route_name("Version Query", &None), "Version ");
    assert_eq!(
        normalize_route_name("Capabilities Query", &Some("capabilities".to_owned())),
        " capabilities"
    );
    assert_eq!(normalize_route_name("Get Config", &Some("other".to_owned())), "Get Config");
    assert_eq!(parse_route_id("0x06"), Ok(6));
    assert_eq!(parse_route_id("0x1F"), Ok(0x1f));
    assert_eq!(parse_route_id("0x100"), Err(CodegenError::InvalidRouteId));
    assert_eq!(parse_route_id("zz"), Err(CodegenError::InvalidRouteId));
}

#[test]
fn ids_become_absolute() {
    let mut lighting = route(&[0x06], "lighting", RouteType::Router);
    let mut rgb = route(&[0x03], "rgblight", RouteType::Router);
    rgb.routes.push((0x01, route(&[0x01], "Capabilities", RouteType::Command)));
    lighting.routes.push((0x03, rgb));
    lighting.expand_ids(&vec![]);
    assert_eq!(lighting.id, vec![0x06]);
    assert_eq!(lighting.routes[0].1.id, vec![0x06, 0x03]);
    assert_eq!(lighting.routes[0].1.routes[0].1.id, vec![0x06, 0x03, 0x01]);
}

#[test]
fn versions_spread_down_unless_earlier() {
    let mut top = route(&[0x04], "keymap", RouteType::Router);
    let mut older = route(&[0x01], "Capabilities", RouteType::Command);
    older.xap_version = Some(version(0x0100));
    let mut newer = route(&[0x02], "Layer count", RouteType::Command);
    newer.xap_version = Some(version(0x0300));
    top.routes.push((0x01, older));
    top.routes.push((0x02, newer));
    top.expand_xap_specs(version(0x0200));
    assert_eq!(top.xap_version.unwrap().value(), 0x0200);
    assert_eq!(top.routes[0].1.xap_version.unwrap().value(), 0x0100);
    assert_eq!(top.routes[1].1.xap_version.unwrap().value(), 0x0200);
}

#[test]
fn merge_takes_the_newer_names_and_joins_children() {
    let mut a = route(&[0x01], "qmk", RouteType::Router);
    a.routes.push((0x00, route(&[0x00], "Version", RouteType::Command)));
    a.routes.push((0x02, route(&[0x02], "Board identifiers", RouteType::Command)));
    let mut b = route(&[0x01], "QMK", RouteType::Router);
    b.description = Some("QMK subsystem".to_owned());
    let mut v = route(&[0x00], "Version query", RouteType::Command);
    v.description = Some("Version".to_owned());
    b.routes.push((0x00, v));
    b.routes.push((0x01, route(&[0x01], "Capabilities", RouteType::Command)));
    a.merge(&b);
    assert_eq!(a.name.as_deref(), Some("QMK"));
    assert_eq!(a.description.as_deref(), Some("QMK subsystem"));
    let keys: Vec<u8> = a.routes.iter().map(|(k, _)| *k).collect();
    assert_eq!(keys, vec![0x00, 0x01, 0x02]);
    assert_eq!(a.routes[0].1.name.as_deref(), Some("Version query"));
    assert_eq!(a.routes[0].1.description.as_deref(), Some("Version"));
    assert_eq!(a.routes[2].1.name.as_deref(), Some("Board identifiers"));
}

fn typedef(name: &str, description: &str) -> TypeDefinition {
    TypeDefinition {
        name: name.to_owned(),
        description: description.to_owned(),
        def_type: BasicType::Struct,
        struct_length: Some(1),
        struct_members: vec![StructMember { name: "length".to_owned(), member_type: BasicType::U8 }],
    }
}

#[test]
fn spec_merge_replaces_named_types() {
    let mut newer = Spec {
        version: version(0x0300),
        routes: vec![],
        broadcast_messages: None,
        type_definitions: vec![("header".to_owned(), typedef("Header", "new"))],
    };
    let older = Spec {
        version: version(0x0200),
        routes: vec![(0x00, route(&[0x00], "XAP", RouteType::Router))],
        broadcast_messages: None,
        type_definitions: vec![
            ("header".to_owned(), typedef("Header", "old")),
            ("token".to_owned(), typedef("Token", "t")),
        ],
    };
    newer.merge(older);
    assert_eq!(newer.version.value(), 0x0300);
    assert_eq!(newer.type_definitions.len(), 2);
    assert_eq!(newer.type_definitions[0].1.description, "old");
    assert_eq!(newer.type_definitions[1].0, "token");
    assert_eq!(newer.routes.len(), 1);
    assert_eq!(newer.routes[0].1.xap_version.unwrap().value(), 0x0300);
}

#[test]
fn spec_render_writes_commands() {
    let mut xap = route(&[0x00], "XAP", RouteType::Router);
    let mut v = route(&[0x00, 0x00], "Version", RouteType::Command);
    v.description = Some("XAP protocol version query.".to_owned());
    v.xap_version = Some(version(0x01));
    v.return_type = BasicType::U32;
    xap.routes.push((0x00, v));
    let spec = Spec { version: version(0x0300), routes: vec![(0x00, xap)], broadcast_messages: None, type_definitions: vec![] };
    let mut out: Vec<char> = Vec::new();
    let commands = spec.render(&mut out).expect("rendered");
    let text: String = out.into_iter().collect();
    assert_eq!(commands, vec!["xap::xap_version".to_owned()]);
    assert!(text.contains("pub mod xap {"));
    assert!(text.contains("pub struct XapVersionRequest(pub ());"));
    assert!(text.contains("impl XAPRequest for XapVersionRequest {"));
    assert!(text.contains("type Response = XapVersionResponse;"));
    assert!(text.contains("&[00, 00]"));
    assert!(text.contains("0x00000001"));
    assert!(text.contains("pub struct XapVersionResponse(pub u32);"));
}

fn versioned(id: &[u8], name: &str, route_type: RouteType, v: u32) -> Route {
    let mut r = route(id, name, route_type);
    r.xap_version = Some(version(v));
    r
}

#[test]
fn specifications_are_merged_in_version_order() {
    let mut xap1 = versioned(&[0x00], "XAP", RouteType::Router, 0x01);
    xap1.routes.push((0x00, versioned(&[0x00, 0x00], "Version", RouteType::Command, 0x01)));
    let s1 = Spec { version: version(0x01), routes: vec![(0x00, xap1)], broadcast_messages: None, type_definitions: vec![] };

    let mut xap2 = versioned(&[0x00], "XAP", RouteType::Router, 0x0200);
    xap2.routes.push((0x01, versioned(&[0x00, 0x01], "Capabilities", RouteType::Command, 0x0200)));
    let s2 = Spec {
        version: version(0x0200),
        routes: vec![(0x00, xap2), (0x04, versioned(&[0x04], "Keymap", RouteType::Router, 0x0200))],
        broadcast_messages: None,
        type_definitions: vec![("token".to_owned(), typedef("Token", "t"))],
    };

    let mut xap3 = versioned(&[0x00], "XAP", RouteType::Router, 0x0300);
    xap3.routes.push((0x02, versioned(&[0x00, 0x02], "Subsystems", RouteType::Command, 0x0300)));
    let s3 = Spec { version: version(0x0300), routes: vec![(0x00, xap3)], broadcast_messages: None, type_definitions: vec![] };

    assert!(level_keys_ascend(&s2.routes));
    let merged = merge_all(vec![s3, s1, s2]).expect("merged");
    assert_eq!(merged.version.value(), 0x0300);
    let keys: Vec<u8> = merged.routes.iter().map(|(k, _)| *k).collect();
    assert_eq!(keys, vec![0x00, 0x04]);
    let xap = &merged.routes[0].1;
    let children: Vec<(u8, u32)> = xap
        .routes
        .iter()
        .map(|(k, r)| (*k, r.xap_version.unwrap().value()))
        .collect();
    assert_eq!(children, vec![(0x00, 0x01), (0x01, 0x0200), (0x02, 0x0300)]);
    assert_eq!(merged.routes[1].1.xap_version.unwrap().value(), 0x0200);
    assert_eq!(merged.type_definitions.len(), 1);
    assert!(level_keys_ascend(&merged.routes));
    assert!(merge_all(vec![]).is_none());
}

#[test]
fn descending_keys_are_noticed() {
    let routes = vec![
        (0x02, route(&[0x02], "b", RouteType::Command)),
        (0x01, route(&[0x01], "a", RouteType::Command)),
    ];
    assert!(!level_keys_ascend(&routes));
    let mut parent = route(&[0x00], "p", RouteType::Router);
    parent.routes = routes;
    assert!(!parent.keys_ascend());
    assert!(!level_keys_ascend(&vec![(0x00, parent)]));
}

#[test]
fn renderability_is_checked() {
    let mut xap = route(&[0x00], "XAP", RouteType::Router);
    let mut v = route(&[0x00, 0x00], "Version", RouteType::Command);
    v.description = Some("d".to_owned());
    v.xap_version = Some(version(0x01));
    xap.routes.push((0x00, v));
    let mut spec = Spec { version: version(0x0300), routes: vec![(0x00, xap)], broadcast_messages: None, type_definitions: vec![] };
    assert!(spec.renderable());
    spec.routes[0].1.routes[0].1.description = None;
    assert!(!spec.renderable());
    let mut caps = route(&[0x01], "Capabilities", RouteType::Command);
    caps.description = Some("d".to_owned());
    caps.xap_version = Some(version(0x01));
    caps.return_purpose = Some("capabilities".to_owned());
    assert!(!caps.renderable(false));
    assert!(caps.renderable(true));
}

fn message(name: &str) -> BroadcastMessage {
    BroadcastMessage { name: name.to_owned(), description: format!("{name} message") }
}

fn bare_spec(v: u32, messages: Option<Vec<(String, BroadcastMessage)>>) -> Spec {
    Spec { version: version(v), routes: vec![], broadcast_messages: messages, type_definitions: vec![] }
}

#[test]
fn merge_extends_broadcast_messages() {
    let mut newer = bare_spec(0x0300, Some(vec![("0x00".to_owned(), message("Log"))]));
    let older = bare_spec(
        0x0200,
        Some(vec![("0x00".to_owned(), message("OldLog")), ("0x01".to_owned(), message("Secure"))]),
    );
    newer.merge(older);
    let names: Vec<(&str, &str)> = newer
        .broadcast_messages
        .as_ref()
        .unwrap()
        .iter()
        .map(|(k, m)| (k.as_str(), m.name.as_str()))
        .collect();
    assert_eq!(names, vec![("0x00", "OldLog"), ("0x01", "Secure")]);

    let mut without = bare_spec(0x0300, None);
    without.merge(bare_spec(0x0200, Some(vec![("0x02".to_owned(), message("Keyboard"))])));
    assert_eq!(without.broadcast_messages.as_ref().unwrap().len(), 1);

    let mut kept = bare_spec(0x0300, Some(vec![("0x00".to_owned(), message("Log"))]));
    kept.merge(bare_spec(0x0200, None));
    assert_eq!(kept.broadcast_messages.as_ref().unwrap()[0].1.name, "Log");
}
