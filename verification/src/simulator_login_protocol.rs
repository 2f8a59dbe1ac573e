//! The parameter of the login call that precedes a circuit: who logs in, with
//! which viewer, and what the reply should hold.  This module builds the
//! parameter as a plain value; sending it is the caller's business.

use vstd::prelude::*;

verus! {

/// A value of a remote procedure call, as far as the login call needs one.
#[derive(Debug, PartialEq, Eq)]
pub enum RpcValue {
    Int64(i64),
    Bool(bool),
    String(String),
    /// Named members, in the order in which they were written.
    Struct(Vec<(String, RpcValue)>),
}

/// What an `RpcValue` holds, as plain mathematical values.
pub enum RpcModel {
    Int64(i64),
    Bool(bool),
    String(Seq<char>),
    Struct(Seq<(Seq<char>, RpcModel)>),
}

impl RpcValue {
    /// What this value holds.
    pub open spec fn model(&self) -> RpcModel
        decreases self,
    {
        match self {
            RpcValue::Int64(n) => RpcModel::Int64(*n),
            RpcValue::Bool(b) => RpcModel::Bool(*b),
            RpcValue::String(s) => RpcModel::String(s@),
            RpcValue::Struct(members) => RpcModel::Struct(
                Seq::new(
                    members.len() as nat,
                    |i: int|
                        if 0 <= i < members.len() {
                            (members[i].0@, members[i].1.model())
                        } else {
                            (Seq::empty(), RpcModel::Bool(false))
                        },
                ),
            ),
        }
    }
}

/// The login call's parameter.
pub struct SimulatorLoginProtocol {
    /// First name of the user.
    pub first: String,
    /// Last name of the user.
    pub last: String,
    /// MD5 hash of the user's password, with `$1$` before it.
    pub passwd: String,
    /// Where the user starts: `home`, `last`, or a place written as
    /// `uri:<region>&<x>&<y>&<z>`.
    pub start: String,
    /// Name of the viewer that connects.
    pub channel: String,
    /// Version of the viewer that connects.
    pub version: String,
    /// Platform of the viewer: `lin`, `mac` or `win`.
    pub platform: String,
    /// Description of the operating system.
    pub platform_string: String,
    /// Version of the operating system.
    pub platform_version: String,
    /// MAC address of the viewer's network card.
    pub mac: String,
    /// Hardware hash that identifies the viewer's machine.
    pub id0: String,
    /// Whether the user has agreed to the terms of service.
    pub agree_to_tos: bool,
    /// Whether the user has read the critical messages.
    pub read_critical: bool,
    /// MD5 hash of the viewer's executable.
    pub viewer_digest: String,
    pub address_size: String,
    pub extended_errors: String,
    pub last_exec_event: i64,
    pub last_exec_duration: String,
    pub skipoptional: bool,
    /// What the reply should hold.
    pub options: SimulatorLoginOptions,
}

/// The `options` member of the login call's parameter: for each part of the
/// reply, the text that asks for it.
pub struct SimulatorLoginOptions {
    pub adult_compliant: String,
    pub advanced_mode: String,
    pub avatar_picker_url: String,
    pub buddy_list: String,
    pub classified_categories: String,
    pub currency: String,
    pub destination_guide_url: String,
    pub display_names: String,
    pub event_categories: String,
    pub gestures: String,
    pub global_textures: String,
    pub inventory_root: String,
    pub inventory_skeleton: String,
    pub inventory_lib_root: String,
    pub inventory_lib_owner: String,
    pub inventory_skel_lib: String,
    pub login_flags: String,
    pub max_agent_groups: String,
    pub max_groups: String,
    pub map_server_url: String,
    pub newuser_config: String,
    pub search: String,
    pub tutorial_setting: String,
    pub ui_config: String,
    pub voice_config: String,
}

impl SimulatorLoginOptions {
    /// The members that are sent, in order: each field under its own name,
    /// but for `inventory_lib_owner`, which is not sent.
    pub open spec fn spec_members(&self) -> Seq<(Seq<char>, RpcModel)> {
        seq![
            ("adult_compliant"@, RpcModel::String(self.adult_compliant@)),
            ("advanced_mode"@, RpcModel::String(self.advanced_mode@)),
            ("avatar_picker_url"@, RpcModel::String(self.avatar_picker_url@)),
            ("buddy_list"@, RpcModel::String(self.buddy_list@)),
            ("classified_categories"@, RpcModel::String(self.classified_categories@)),
            ("currency"@, RpcModel::String(self.currency@)),
            ("destination_guide_url"@, RpcModel::String(self.destination_guide_url@)),
            ("display_names"@, RpcModel::String(self.display_names@)),
            ("event_categories"@, RpcModel::String(self.event_categories@)),
            ("gestures"@, RpcModel::String(self.gestures@)),
            ("global_textures"@, RpcModel::String(self.global_textures@)),
            ("inventory_root"@, RpcModel::String(self.inventory_root@)),
            ("inventory_skeleton"@, RpcModel::String(self.inventory_skeleton@)),
            ("inventory_lib_root"@, RpcModel::String(self.inventory_lib_root@)),
            ("inventory_skel_lib"@, RpcModel::String(self.inventory_skel_lib@)),
            ("login_flags"@, RpcModel::String(self.login_flags@)),
            ("max_agent_groups"@, RpcModel::String(self.max_agent_groups@)),
            ("max_groups"@, RpcModel::String(self.max_groups@)),
            ("map_server_url"@, RpcModel::String(self.map_server_url@)),
            ("newuser_config"@, RpcModel::String(self.newuser_config@)),
            ("search"@, RpcModel::String(self.search@)),
            ("tutorial_setting"@, RpcModel::String(self.tutorial_setting@)),
            ("ui_config"@, RpcModel::String(self.ui_config@)),
            ("voice_config"@, RpcModel::String(self.voice_config@)),
        ]
    }

    /// These options as a value of the call.
    pub fn into_value(self) -> (value: RpcValue)
        ensures
            value.model() == RpcModel::Struct(self.spec_members()),
    {
        let mut members: Vec<(String, RpcValue)> = Vec::new();
        members.push(("adult_compliant".to_owned(), RpcValue::String(self.adult_compliant)));
        members.push(("advanced_mode".to_owned(), RpcValue::String(self.advanced_mode)));
        members.push(("avatar_picker_url".to_owned(), RpcValue::String(self.avatar_picker_url)));
        members.push(("buddy_list".to_owned(), RpcValue::String(self.buddy_list)));
        members.push(("classified_categories".to_owned(), RpcValue::String(self.classified_categories)));
        members.push(("currency".to_owned(), RpcValue::String(self.currency)));
        members.push(("destination_guide_url".to_owned(), RpcValue::String(self.destination_guide_url)));
        members.push(("display_names".to_owned(), RpcValue::String(self.display_names)));
        members.push(("event_categories".to_owned(), RpcValue::String(self.event_categories)));
        members.push(("gestures".to_owned(), RpcValue::String(self.gestures)));
        members.push(("global_textures".to_owned(), RpcValue::String(self.global_textures)));
        members.push(("inventory_root".to_owned(), RpcValue::String(self.inventory_root)));
        members.push(("inventory_skeleton".to_owned(), RpcValue::String(self.inventory_skeleton)));
        members.push(("inventory_lib_root".to_owned(), RpcValue::String(self.inventory_lib_root)));
        members.push(("inventory_skel_lib".to_owned(), RpcValue::String(self.inventory_skel_lib)));
        members.push(("login_flags".to_owned(), RpcValue::String(self.login_flags)));
        members.push(("max_agent_groups".to_owned(), RpcValue::String(self.max_agent_groups)));
        members.push(("max_groups".to_owned(), RpcValue::String(self.max_groups)));
        members.push(("map_server_url".to_owned(), RpcValue::String(self.map_server_url)));
        members.push(("newuser_config".to_owned(), RpcValue::String(self.newuser_config)));
        members.push(("search".to_owned(), RpcValue::String(self.search)));
        members.push(("tutorial_setting".to_owned(), RpcValue::String(self.tutorial_setting)));
        members.push(("ui_config".to_owned(), RpcValue::String(self.ui_config)));
        members.push(("voice_config".to_owned(), RpcValue::String(self.voice_config)));
        let value = RpcValue::Struct(members);
        proof {
            reveal_with_fuel(RpcValue::model, 2);
            assert(value.model()->Struct_0 =~= self.spec_members());
        }
        value
    }
}

impl SimulatorLoginProtocol {
    /// The members that are sent, in order.  `platform` is sent with the
    /// text of `version`, and `extended_errors` is not sent; every other
    /// field goes under its own name.
    pub open spec fn spec_members(&self) -> Seq<(Seq<char>, RpcModel)> {
        seq![
            ("first"@, RpcModel::String(self.first@)),
            ("last"@, RpcModel::String(self.last@)),
            ("passwd"@, RpcModel::String(self.passwd@)),
            ("start"@, RpcModel::String(self.start@)),
            ("channel"@, RpcModel::String(self.channel@)),
            ("version"@, RpcModel::String(self.version@)),
            ("platform"@, RpcModel::String(self.version@)),
            ("platform_string"@, RpcModel::String(self.platform_string@)),
            ("platform_version"@, RpcModel::String(self.platform_version@)),
            ("mac"@, RpcModel::String(self.mac@)),
            ("id0"@, RpcModel::String(self.id0@)),
            ("agree_to_tos"@, RpcModel::Bool(self.agree_to_tos)),
            ("read_critical"@, RpcModel::Bool(self.read_critical)),
            ("viewer_digest"@, RpcModel::String(self.viewer_digest@)),
            ("address_size"@, RpcModel::String(self.address_size@)),
            ("last_exec_event"@, RpcModel::Int64(self.last_exec_event)),
            ("last_exec_duration"@, RpcModel::String(self.last_exec_duration@)),
            ("skipoptional"@, RpcModel::Bool(self.skipoptional)),
            ("options"@, RpcModel::Struct(self.options.spec_members())),
        ]
    }

    /// This parameter as a value of the call.
    pub fn into_value(self) -> (value: RpcValue)
        ensures
            value.model() == RpcModel::Struct(self.spec_members()),
    {
        let ghost wanted = self.spec_members();
        let mut members: Vec<(String, RpcValue)> = Vec::new();
        members.push(("first".to_owned(), RpcValue::String(self.first)));
        members.push(("last".to_owned(), RpcValue::String(self.last)));
        members.push(("passwd".to_owned(), RpcValue::String(self.passwd)));
        members.push(("start".to_owned(), RpcValue::String(self.start)));
        members.push(("channel".to_owned(), RpcValue::String(self.channel)));
        members.push(("version".to_owned(), RpcValue::String(self.version.clone())));
        members.push(("platform".to_owned(), RpcValue::String(self.version)));
        members.push(("platform_string".to_owned(), RpcValue::String(self.platform_string)));
        members.push(("platform_version".to_owned(), RpcValue::String(self.platform_version)));
        members.push(("mac".to_owned(), RpcValue::String(self.mac)));
        members.push(("id0".to_owned(), RpcValue::String(self.id0)));
        members.push(("agree_to_tos".to_owned(), RpcValue::Bool(self.agree_to_tos)));
        members.push(("read_critical".to_owned(), RpcValue::Bool(self.read_critical)));
        members.push(("viewer_digest".to_owned(), RpcValue::String(self.viewer_digest)));
        members.push(("address_size".to_owned(), RpcValue::String(self.address_size)));
        members.push(("last_exec_event".to_owned(), RpcValue::Int64(self.last_exec_event)));
        members.push(("last_exec_duration".to_owned(), RpcValue::String(self.last_exec_duration)));
        members.push(("skipoptional".to_owned(), RpcValue::Bool(self.skipoptional)));
        members.push(("options".to_owned(), self.options.into_value()));
        let value = RpcValue::Struct(members);
        proof {
            reveal_with_fuel(RpcValue::model, 2);
            assert(value.model()->Struct_0 =~= wanted);
        }
        value
    }
}

} // verus!
