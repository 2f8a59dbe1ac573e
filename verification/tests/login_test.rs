use simulator_messages::hello;
use simulator_messages::simulator_login_protocol::{
    RpcValue, SimulatorLoginOptions, SimulatorLoginProtocol,
};

fn text(s: &str) -> RpcValue {
    RpcValue::String(s.to_string())
}

fn options() -> SimulatorLoginOptions {
    SimulatorLoginOptions {
        adult_compliant: "a1".to_string(),
        advanced_mode: "a2".to_string(),
        avatar_picker_url: "a3".to_string(),
        buddy_list: "b1".to_string(),
        classified_categories: "c1".to_string(),
        currency: "c2".to_string(),
        destination_guide_url: "d1".to_string(),
        display_names: "d2".to_string(),
        event_categories: "e1".to_string(),
        gestures: "g1".to_string(),
        global_textures: "g2".to_string(),
        inventory_root: "i1".to_string(),
        inventory_skeleton: "i2".to_string(),
        inventory_lib_root: "i3".to_string(),
        inventory_lib_owner: "i4".to_string(),
        inventory_skel_lib: "i5".to_string(),
        login_flags: "l1".to_string(),
        max_agent_groups: "m1".to_string(),
        max_groups: "m2".to_string(),
        map_server_url: "m3".to_string(),
        newuser_config: "n1".to_string(),
        search: "s1".to_string(),
        tutorial_setting: "t1".to_string(),
        ui_config: "u1".to_string(),
        voice_config: "v1".to_string(),
    }
}

fn expected_options() -> RpcValue {
    let members = [
        ("adult_compliant", "a1"),
        ("advanced_mode", "a2"),
        ("avatar_picker_url", "a3"),
        ("buddy_list", "b1"),
        ("classified_categories", "c1"),
        ("currency", "c2"),
        ("destination_guide_url", "d1"),
        ("display_names", "d2"),
        ("event_categories", "e1"),
        ("gestures", "g1"),
        ("global_textures", "g2"),
        ("inventory_root", "i1"),
        ("inventory_skeleton", "i2"),
        ("inventory_lib_root", "i3"),
        ("inventory_skel_lib", "i5"),
        ("login_flags", "l1"),
        ("max_agent_groups", "m1"),
        ("max_groups", "m2"),
        ("map_server_url", "m3"),
        ("newuser_config", "n1"),
        ("search", "s1"),
        ("tutorial_setting", "t1"),
        ("ui_config", "u1"),
        ("voice_config", "v1"),
    ];
    RpcValue::Struct(members.iter().map(|(name, value)| (name.to_string(), text(value))).collect())
}

#[test]
fn hello_is_four() {
    assert_eq!(hello(), 4);
}

#[test]
fn options_become_a_struct_of_texts() {
    let value = options().into_value();
    assert_eq!(value, expected_options());
    match value {
        RpcValue::Struct(members) => assert_eq!(members.len(), 24),
        _ => panic!("the options are not a struct"),
    }
}

#[test]
fn login_becomes_a_struct_with_the_options_inside() {
    let login = SimulatorLoginProtocol {
        first: "Ada".to_string(),
        last: "Lovelace".to_string(),
        passwd: "$1$5f4dcc3b5aa765d61d8327deb882cf99".to_string(),
        start: "uri:test&128&128&0".to_string(),
        channel: "viewer".to_string(),
        version: "1.2.3".to_string(),
        platform: "lin".to_string(),
        platform_string: "Linux 5.8".to_string(),
        platform_version: "5.8".to_string(),
        mac: "00:11:22:33:44:55".to_string(),
        id0: "disk".to_string(),
        agree_to_tos: true,
        read_critical: false,
        viewer_digest: "digest".to_string(),
        address_size: "64".to_string(),
        extended_errors: "yes".to_string(),
        last_exec_event: -3,
        last_exec_duration: "12".to_string(),
        skipoptional: true,
        options: options(),
    };
    let expected = RpcValue::Struct(vec![
        ("first".to_string(), text("Ada")),
        ("last".to_string(), text("Lovelace")),
        ("passwd".to_string(), text("$1$5f4dcc3b5aa765d61d8327deb882cf99")),
        ("start".to_string(), text("uri:test&128&128&0")),
        ("channel".to_string(), text("viewer")),
        ("version".to_string(), text("1.2.3")),
        ("platform".to_string(), text("1.2.3")),
        ("platform_string".to_string(), text("Linux 5.8")),
        ("platform_version".to_string(), text("5.8")),
        ("mac".to_string(), text("00:11:22:33:44:55")),
        ("id0".to_string(), text("disk")),
        ("agree_to_tos".to_string(), RpcValue::Bool(true)),
        ("read_critical".to_string(), RpcValue::Bool(false)),
        ("viewer_digest".to_string(), text("digest")),
        ("address_size".to_string(), text("64")),
        ("last_exec_event".to_string(), RpcValue::Int64(-3)),
        ("last_exec_duration".to_string(), text("12")),
        ("skipoptional".to_string(), RpcValue::Bool(true)),
        ("options".to_string(), expected_options()),
    ]);
    assert_eq!(login.into_value(), expected);
}
