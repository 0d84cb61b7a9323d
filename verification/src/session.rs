//! What the client makes of the controller's session API replies: VPN
//! settings, site settings, administrators and system information.  The
//! requests themselves are made elsewhere; these functions take the
//! decoded replies.

use vstd::prelude::*;
use crate::firewall::EntityId;
use crate::json::{
    deep_clone, entries_view, get, law_redaction_masks_every_secret, member_bool, member_str,
    member_u64, redact_sensitive_value, spec_as_bool, spec_as_str, spec_as_u64, spec_get, spec_masked,
    spec_member, spec_redact, JsonValue, JsonView,
};
use crate::text::{owned, str_eq};

verus! {

/// Errors of the queries.
#[derive(Debug)]
pub enum CoreError {
    /// No entity of the kind `entity_type` is known by `identifier`.
    NotFound { entity_type: String, identifier: String },
}

/// The view of an optional string.
pub open spec fn opt_text(s: Option<String>) -> Option<Seq<char>> {
    match s {
        Some(v) => Some(v@),
        None => None,
    }
}

/// The site settings that configure VPN services.
pub open spec fn spec_is_vpn_key(key: Seq<char>) -> bool {
    ||| key == "teleport"@
    ||| key == "magic_site_to_site_vpn"@
    ||| key == "openvpn"@
    ||| key == "peer_to_peer"@
}

/// Whether `key` names a VPN setting; see [`spec_is_vpn_key`].
pub fn is_vpn_setting_key(key: &str) -> (r: bool)
    ensures
        r == spec_is_vpn_key(key@),
{
    str_eq(key, "teleport") || str_eq(key, "magic_site_to_site_vpn") || str_eq(key, "openvpn")
        || str_eq(key, "peer_to_peer")
}

/// One VPN setting: its key, whether it is enabled, and its remaining
/// members with secrets masked.
#[derive(Debug)]
pub struct VpnSetting {
    pub key: String,
    pub enabled: Option<bool>,
    pub fields: Vec<(String, JsonValue)>,
}

/// What a VPN setting holds.
pub type VpnSettingView = (Seq<char>, Option<bool>, Seq<(Seq<char>, JsonView)>);

impl View for VpnSetting {
    type V = VpnSettingView;

    open spec fn view(&self) -> VpnSettingView {
        (self.key@, self.enabled, entries_view(self.fields@))
    }
}

/// Bookkeeping members that a setting's fields leave out.
pub open spec fn spec_is_bookkeeping(name: Seq<char>) -> bool {
    name == "_id"@ || name == "key"@ || name == "site_id"@
}

/// A setting's members without its bookkeeping, secrets masked.
pub open spec fn spec_vpn_fields(entries: Seq<(Seq<char>, JsonView)>) -> Seq<(Seq<char>, JsonView)> {
    let kept = entries.filter(|e: (Seq<char>, JsonView)| !spec_is_bookkeeping(e.0));
    match spec_redact(JsonView::Object(kept)) {
        JsonView::Object(m) => m,
        _ => Seq::empty(),
    }
}

/// The VPN setting a raw site setting describes: only objects whose `key`
/// names a VPN service are one.
pub open spec fn spec_vpn_setting(raw: JsonView) -> Option<VpnSettingView> {
    match raw {
        JsonView::Object(entries) => match spec_member(entries, "key"@) {
            Some(JsonView::Str(k)) => if spec_is_vpn_key(k) {
                let fields = spec_vpn_fields(entries);
                Some((k, spec_as_bool(spec_member(fields, "enabled"@)), fields))
            } else {
                None
            },
            _ => None,
        },
        _ => None,
    }
}

/// The VPN setting in a raw site setting; see [`spec_vpn_setting`].
pub fn vpn_setting_from_raw(raw: &JsonValue) -> (r: Option<VpnSetting>)
    ensures
        match r {
            Some(s) => spec_vpn_setting(raw@) == Some(s@),
            None => spec_vpn_setting(raw@) is None,
        },
{
    let key = match member_str(raw, "key") {
        Some(k) => k,
        None => {
            return None;
        },
    };
    if !is_vpn_setting_key(key.as_str()) {
        return None;
    }
    let entries = match raw {
        JsonValue::Object(entries) => entries,
        _ => {
            return None;
        },
    };
    let ghost ev = entries_view(entries@);
    let ghost pred = |e: (Seq<char>, JsonView)| !spec_is_bookkeeping(e.0);
    let mut kept: Vec<(String, JsonValue)> = Vec::new();
    let mut i: usize = 0;
    while i < entries.len()
        invariant
            i <= entries@.len(),
            ev == entries_view(entries@),
            pred == (|e: (Seq<char>, JsonView)| !spec_is_bookkeeping(e.0)),
            entries_view(kept@) == ev.take(i as int).filter(pred),
        decreases entries@.len() - i,
    {
        proof {
            reveal(Seq::filter);
            assert(ev.take(i + 1).drop_last() =~= ev.take(i as int));
            assert(ev.take(i + 1).last() == ev[i as int]);
            assert(ev[i as int] == (entries@[i as int].0@, entries@[i as int].1@));
        }
        let name = entries[i].0.as_str();
        if !(str_eq(name, "_id") || str_eq(name, "key") || str_eq(name, "site_id")) {
            let ghost before = kept@;
            kept.push((entries[i].0.clone(), deep_clone(&entries[i].1)));
            proof {
                assert(entries_view(kept@) =~= entries_view(before).push(ev[i as int]));
            }
        }
        i = i + 1;
    }
    proof {
        assert(ev.take(entries@.len() as int) =~= ev);
    }
    let masked = redact_sensitive_value(&JsonValue::Object(kept));
    let enabled = member_bool(&masked, "enabled");
    match masked {
        JsonValue::Object(fields) => Some(VpnSetting { key: key.clone(), enabled, fields }),
        _ => None,
    }
}

/// The VPN settings among `raws` whose key is `key`, in order.
pub open spec fn spec_settings_with_key(raws: Seq<JsonView>, key: Seq<char>) -> Seq<VpnSettingView>
    decreases raws.len(),
{
    if raws.len() == 0 {
        seq![]
    } else {
        let rest = spec_settings_with_key(raws.drop_last(), key);
        match spec_vpn_setting(raws.last()) {
            Some(s) => if s.0 == key {
                rest.push(s)
            } else {
                rest
            },
            None => rest,
        }
    }
}

/// The VPN settings among the raw site settings, ordered by key (keys in
/// byte order; settings with one key in the order they came).
pub open spec fn spec_list_vpn_settings(raws: Seq<JsonView>) -> Seq<VpnSettingView> {
    spec_settings_with_key(raws, "magic_site_to_site_vpn"@) + spec_settings_with_key(raws, "openvpn"@)
        + spec_settings_with_key(raws, "peer_to_peer"@) + spec_settings_with_key(raws, "teleport"@)
}

/// The views of a list of values.
pub open spec fn values_view(v: Seq<JsonValue>) -> Seq<JsonView> {
    v.map_values(|x: JsonValue| x@)
}

/// The views of a list of VPN settings.
pub open spec fn settings_view(v: Seq<VpnSetting>) -> Seq<VpnSettingView> {
    v.map_values(|x: VpnSetting| x@)
}

fn collect_settings_with_key(raws: &Vec<JsonValue>, key: &str, out: &mut Vec<VpnSetting>)
    ensures
        settings_view(final(out)@) == settings_view(old(out)@) + spec_settings_with_key(values_view(raws@), key@),
{
    let ghost start = settings_view(out@);
    let mut i: usize = 0;
    while i < raws.len()
        invariant
            i <= raws@.len(),
            settings_view(out@) == start + spec_settings_with_key(values_view(raws@).take(i as int), key@),
        decreases raws@.len() - i,
    {
        proof {
            assert(values_view(raws@).take(i + 1).drop_last() =~= values_view(raws@).take(i as int));
            assert(values_view(raws@).take(i + 1).last() == raws@[i as int]@);
        }
        match vpn_setting_from_raw(&raws[i]) {
            Some(setting) => {
                if str_eq(setting.key.as_str(), key) {
                    let ghost before = out@;
                    out.push(setting);
                    proof {
                        assert(settings_view(out@) =~= settings_view(before).push(setting@));
                    }
                }
            },
            None => {},
        }
        i = i + 1;
    }
    proof {
        assert(values_view(raws@).take(raws@.len() as int) =~= values_view(raws@));
    }
}

/// The VPN settings among the raw site settings; see [`spec_list_vpn_settings`].
pub fn list_vpn_settings(raws: &Vec<JsonValue>) -> (r: Vec<VpnSetting>)
    ensures
        settings_view(r@) == spec_list_vpn_settings(values_view(raws@)),
{
    let mut out: Vec<VpnSetting> = Vec::new();
    collect_settings_with_key(raws, "magic_site_to_site_vpn", &mut out);
    collect_settings_with_key(raws, "openvpn", &mut out);
    collect_settings_with_key(raws, "peer_to_peer", &mut out);
    collect_settings_with_key(raws, "teleport", &mut out);
    proof {
        assert(settings_view(Seq::<VpnSetting>::empty()) =~= Seq::<VpnSettingView>::empty());
        assert(Seq::<VpnSettingView>::empty() + spec_settings_with_key(values_view(raws@), "magic_site_to_site_vpn"@)
            =~= spec_settings_with_key(values_view(raws@), "magic_site_to_site_vpn"@));
    }
    out
}

/// The VPN setting `key` among `settings`, or that none has that key.
pub fn get_vpn_setting(settings: Vec<VpnSetting>, key: &str) -> (r: Result<VpnSetting, CoreError>)
    ensures
        r is Ok ==> exists|i: int|
            0 <= i < settings@.len() && r->Ok_0@ == (#[trigger] settings@[i])@ && r->Ok_0@.0 == key@
                && forall|j: int| 0 <= j < i ==> #[trigger] settings@[j]@.0 != key@,
        r matches Err(CoreError::NotFound { entity_type, identifier }) ==> {
            &&& entity_type@ == "vpn setting"@
            &&& identifier@ == key@
            &&& forall|j: int| 0 <= j < settings@.len() ==> #[trigger] settings@[j]@.0 != key@
        },
{
    let ghost given = settings@;
    let mut list = settings;
    let mut i: usize = 0;
    while i < list.len()
        invariant
            i <= list@.len(),
            list@ == given,
            given == settings@,
            forall|j: int| 0 <= j < i ==> #[trigger] list@[j]@.0 != key@,
        decreases list@.len() - i,
    {
        if str_eq(list[i].key.as_str(), key) {
            let found = list.remove(i);
            let res: Result<VpnSetting, CoreError> = Ok(found);
            proof {
                let w = i as int;
                assert(0 <= w < given.len() && res->Ok_0@ == (given[w])@ && res->Ok_0@.0 == key@
                    && forall|j: int| 0 <= j < w ==> #[trigger] given[j]@.0 != key@);
            }
            return res;
        }
        i = i + 1;
    }
    Err(CoreError::NotFound { entity_type: owned("vpn setting"), identifier: owned(key) })
}

/// Only the VPN settings can be updated through the VPN commands.
pub fn check_vpn_setting_key(key: &str) -> (r: Result<(), CoreError>)
    ensures
        r is Ok <==> spec_is_vpn_key(key@),
        r matches Err(CoreError::NotFound { entity_type, identifier }) ==> entity_type@ == "vpn setting"@
            && identifier@ == key@,
{
    if is_vpn_setting_key(key) {
        Ok(())
    } else {
        Err(CoreError::NotFound { entity_type: owned("vpn setting"), identifier: owned(key) })
    }
}

/// Whether a raw site setting has the key `key`.
pub open spec fn spec_setting_has_key(setting: JsonView, key: Seq<char>) -> bool {
    spec_as_str(spec_get(setting, "key"@)) == Some(key)
}

fn setting_has_key(setting: &JsonValue, key: &str) -> (r: bool)
    ensures
        r == spec_setting_has_key(setting@, key@),
{
    match member_str(setting, "key") {
        Some(k) => str_eq(k.as_str(), key),
        None => false,
    }
}

/// The raw site setting `key`: the first one with that key, or that none
/// has it.
pub fn get_site_setting(settings: Vec<JsonValue>, key: &str) -> (r: Result<JsonValue, CoreError>)
    ensures
        match r {
            Ok(s) => exists|i: int|
                0 <= i < settings@.len() && s@ == (#[trigger] settings@[i])@ && spec_setting_has_key(s@, key@)
                    && forall|j: int| 0 <= j < i ==> !spec_setting_has_key(#[trigger] settings@[j]@, key@),
            Err(CoreError::NotFound { entity_type, identifier }) => {
                &&& entity_type@ == "setting"@
                &&& identifier@ == key@
                &&& forall|j: int| 0 <= j < settings@.len() ==> !spec_setting_has_key(#[trigger] settings@[j]@, key@)
            },
        },
{
    let ghost given = settings@;
    let mut list = settings;
    let mut i: usize = 0;
    while i < list.len()
        invariant
            i <= list@.len(),
            list@ == given,
            given == settings@,
            forall|j: int| 0 <= j < i ==> !spec_setting_has_key(#[trigger] list@[j]@, key@),
        decreases list@.len() - i,
    {
        if setting_has_key(&list[i], key) {
            let found = list.remove(i);
            let res: Result<JsonValue, CoreError> = Ok(found);
            proof {
                let w = i as int;
                assert(0 <= w < given.len() && res->Ok_0@ == (given[w])@ && spec_setting_has_key(res->Ok_0@, key@)
                    && forall|j: int| 0 <= j < w ==> !spec_setting_has_key(#[trigger] given[j]@, key@));
            }
            return res;
        }
        i = i + 1;
    }
    Err(CoreError::NotFound { entity_type: owned("setting"), identifier: owned(key) })
}

/// Whether deep packet inspection is on: the `enabled` flag of the first
/// `dpi` setting, off when there is none or it has no such flag.
pub open spec fn spec_dpi_enabled(settings: Seq<JsonView>) -> bool
    decreases settings.len(),
{
    if settings.len() == 0 {
        false
    } else if spec_setting_has_key(settings[0], "dpi"@) {
        match spec_as_bool(spec_get(settings[0], "enabled"@)) {
            Some(b) => b,
            None => false,
        }
    } else {
        spec_dpi_enabled(settings.drop_first())
    }
}

/// Whether deep packet inspection is on; see [`spec_dpi_enabled`].
pub fn is_dpi_enabled(settings: &Vec<JsonValue>) -> (r: bool)
    ensures
        r == spec_dpi_enabled(values_view(settings@)),
{
    let ghost all = values_view(settings@);
    assert(all.skip(0) =~= all);
    let mut i: usize = 0;
    while i < settings.len()
        invariant
            i <= settings@.len(),
            all == values_view(settings@),
            spec_dpi_enabled(all) == spec_dpi_enabled(all.skip(i as int)),
        decreases settings@.len() - i,
    {
        proof {
            assert(all.skip(i as int)[0] == settings@[i as int]@);
            assert(all.skip(i as int).drop_first() =~= all.skip(i + 1));
        }
        if setting_has_key(&settings[i], "dpi") {
            return match member_bool(&settings[i], "enabled") {
                Some(b) => b,
                None => false,
            };
        }
        i = i + 1;
    }
    false
}

/// The first of two lookups that finds something.
pub open spec fn spec_or(first: Option<JsonView>, second: Option<JsonView>) -> Option<JsonView> {
    if first is Some {
        first
    } else {
        second
    }
}

/// A string member, or a default when there is none.
pub open spec fn spec_str_or(v: Option<JsonView>, default: Seq<char>) -> Seq<char> {
    match spec_as_str(v) {
        Some(s) => s,
        None => default,
    }
}

fn text_or(v: Option<&JsonValue>, default: &str) -> (r: String)
    ensures
        r@ == spec_str_or(
            match v {
                Some(x) => Some(x@),
                None => None,
            },
            default@,
        ),
{
    match v {
        Some(JsonValue::Str(s)) => s.clone(),
        _ => owned(default),
    }
}

fn text_of(v: Option<&JsonValue>) -> (r: Option<String>)
    ensures
        opt_text(r) == spec_as_str(
            match v {
                Some(x) => Some(x@),
                None => None,
            },
        ),
{
    match v {
        Some(JsonValue::Str(s)) => Some(s.clone()),
        _ => None,
    }
}

fn bool_of(v: Option<&JsonValue>) -> (r: Option<bool>)
    ensures
        r == spec_as_bool(
            match v {
                Some(x) => Some(x@),
                None => None,
            },
        ),
{
    match v {
        Some(JsonValue::Bool(b)) => Some(*b),
        _ => None,
    }
}

fn either<'a>(v: &'a JsonValue, first: &str, second: &str) -> (r: Option<&'a JsonValue>)
    ensures
        match r {
            Some(x) => spec_or(spec_get(v@, first@), spec_get(v@, second@)) == Some(x@),
            None => spec_or(spec_get(v@, first@), spec_get(v@, second@)) is None,
        },
{
    match get(v, first) {
        Some(x) => Some(x),
        None => get(v, second),
    }
}

/// A controller administrator.
#[derive(Debug)]
pub struct Admin {
    pub id: EntityId,
    pub name: String,
    pub email: Option<String>,
    pub role: String,
    pub is_super: bool,
    /// Epoch seconds of the last login, when the reply tells it.
    pub last_login: Option<i64>,
}

/// How an administrator is read from its raw record: missing names are
/// empty, a missing id or role reads "unknown", a missing flag is false.
pub open spec fn spec_admin(admin: Admin, raw: JsonView) -> bool {
    &&& admin.id.value@ == spec_str_or(spec_get(raw, "_id"@), "unknown"@)
    &&& admin.name@ == spec_str_or(spec_get(raw, "name"@), ""@)
    &&& opt_text(admin.email) == spec_as_str(spec_get(raw, "email"@))
    &&& admin.role@ == spec_str_or(spec_get(raw, "role"@), "unknown"@)
    &&& admin.is_super == (match spec_as_bool(spec_get(raw, "is_super"@)) {
        Some(b) => b,
        None => false,
    })
    &&& admin.last_login is None
}

/// One administrator from its raw record; see [`spec_admin`].
pub fn admin_from_raw(raw: &JsonValue) -> (r: Admin)
    ensures
        spec_admin(r, raw@),
{
    let id = text_or(get(raw, "_id"), "unknown");
    Admin {
        id: EntityId { value: id },
        name: text_or(get(raw, "name"), ""),
        email: text_of(get(raw, "email")),
        role: text_or(get(raw, "role"), "unknown"),
        is_super: match bool_of(get(raw, "is_super")) {
            Some(b) => b,
            None => false,
        },
        last_login: None,
    }
}

/// The administrators in a raw reply, one per record, in order.
pub fn list_admins(raw: &Vec<JsonValue>) -> (r: Vec<Admin>)
    ensures
        r@.len() == raw@.len(),
        forall|i: int| 0 <= i < raw@.len() ==> spec_admin(#[trigger] r@[i], raw@[i]@),
{
    let mut out: Vec<Admin> = Vec::new();
    let mut i: usize = 0;
    while i < raw.len()
        invariant
            i <= raw@.len(),
            out@.len() == i,
            forall|k: int| 0 <= k < i ==> spec_admin(#[trigger] out@[k], raw@[k]@),
        decreases raw@.len() - i,
    {
        out.push(admin_from_raw(&raw[i]));
        i = i + 1;
    }
    out
}

/// What the controller says about itself.
#[derive(Debug)]
pub struct SystemInfo {
    pub controller_name: Option<String>,
    pub version: String,
    pub build: Option<String>,
    pub hostname: Option<String>,
    /// The first string listed under `ip_addrs`, exactly as the controller
    /// wrote it. It is not checked to be an address: turning it into an IP
    /// address, and dropping text that does not parse as one, is the
    /// caller's step (address parsing lives in `std::net`).
    pub ip_text: Option<String>,
    pub uptime_secs: Option<u64>,
    pub update_available: Option<bool>,
}

/// System information from the integration API's info fields: names and
/// versions under their application keys, falling back to the plain ones.
pub open spec fn spec_info_from_integration(info: SystemInfo, fields: JsonView) -> bool {
    &&& opt_text(info.controller_name) == spec_as_str(spec_or(spec_get(fields, "applicationName"@), spec_get(fields, "name"@)))
    &&& info.version@ == spec_str_or(spec_or(spec_get(fields, "applicationVersion"@), spec_get(fields, "version"@)), "unknown"@)
    &&& opt_text(info.build) == spec_as_str(spec_get(fields, "build"@))
    &&& opt_text(info.hostname) == spec_as_str(spec_get(fields, "hostname"@))
    &&& info.ip_text is None
    &&& info.uptime_secs == spec_as_u64(spec_get(fields, "uptime"@))
    &&& info.update_available == spec_as_bool(spec_or(spec_get(fields, "isUpdateAvailable"@), spec_get(fields, "update_available"@)))
}

/// System information from the integration API; see
/// [`spec_info_from_integration`].
pub fn system_info_from_integration(fields: &JsonValue) -> (r: SystemInfo)
    ensures
        spec_info_from_integration(r, fields@),
{
    SystemInfo {
        controller_name: text_of(either(fields, "applicationName", "name")),
        version: text_or(either(fields, "applicationVersion", "version"), "unknown"),
        build: text_of(get(fields, "build")),
        hostname: text_of(get(fields, "hostname")),
        ip_text: None,
        uptime_secs: member_u64(fields, "uptime"),
        update_available: bool_of(either(fields, "isUpdateAvailable", "update_available")),
    }
}

/// The first item of the `ip_addrs` list, if it is a string, whatever the
/// string says: no address syntax is checked here.
pub open spec fn spec_first_ip(raw: JsonView) -> Option<Seq<char>> {
    match spec_get(raw, "ip_addrs"@) {
        Some(JsonView::Array(items)) => if items.len() > 0 {
            spec_as_str(Some(items[0]))
        } else {
            None
        },
        _ => None,
    }
}

/// System information from the session API's sysinfo record. The address
/// is kept as unvalidated text (see [`spec_first_ip`]).
pub open spec fn spec_info_from_sysinfo(info: SystemInfo, raw: JsonView) -> bool {
    &&& opt_text(info.controller_name) == spec_as_str(spec_or(spec_get(raw, "controller_name"@), spec_get(raw, "name"@)))
    &&& info.version@ == spec_str_or(spec_get(raw, "version"@), "unknown"@)
    &&& opt_text(info.build) == spec_as_str(spec_get(raw, "build"@))
    &&& opt_text(info.hostname) == spec_as_str(spec_get(raw, "hostname"@))
    &&& opt_text(info.ip_text) == spec_first_ip(raw)
    &&& info.uptime_secs == spec_as_u64(spec_get(raw, "uptime"@))
    &&& info.update_available == spec_as_bool(spec_get(raw, "update_available"@))
}

fn first_ip(raw: &JsonValue) -> (r: Option<String>)
    ensures
        opt_text(r) == spec_first_ip(raw@),
{
    match get(raw, "ip_addrs") {
        Some(JsonValue::Array(items)) => {
            if items.len() > 0 {
                proof {
                    assert(spec_get(raw@, "ip_addrs"@) matches Some(JsonView::Array(v)) && v[0] == items@[0]@);
                }
                text_of(Some(&items[0]))
            } else {
                None
            }
        },
        _ => None,
    }
}

/// System information from the sysinfo record; see [`spec_info_from_sysinfo`].
/// `ip_text` holds the first listed address as text, unvalidated: a record
/// whose first address is `"not-an-ip"` gives `Some("not-an-ip")`, which an
/// address parser then rejects.
pub fn system_info_from_sysinfo(raw: &JsonValue) -> (r: SystemInfo)
    ensures
        spec_info_from_sysinfo(r, raw@),
{
    SystemInfo {
        controller_name: text_of(either(raw, "controller_name", "name")),
        version: text_or(get(raw, "version"), "unknown"),
        build: text_of(get(raw, "build")),
        hostname: text_of(get(raw, "hostname")),
        ip_text: first_ip(raw),
        uptime_secs: member_u64(raw, "uptime"),
        update_available: member_bool(raw, "update_available"),
    }
}

/// Details of the controller host, with the whole record kept alongside.
#[derive(Debug)]
pub struct SysInfo {
    pub timezone: Option<String>,
    pub autobackup: Option<bool>,
    pub hostname: Option<String>,
    pub ip_addrs: Vec<String>,
    pub live_chat: Option<String>,
    pub data_retention_days: Option<u32>,
    pub extra: JsonValue,
}

/// The strings of a list, other items skipped.
pub open spec fn spec_strings(items: Seq<JsonView>) -> Seq<Seq<char>> {
    items.filter_map(|x: JsonView| spec_as_str(Some(x)))
}

/// The addresses listed under `ip_addrs`, none when it is not a list.
pub open spec fn spec_ip_addrs(raw: JsonView) -> Seq<Seq<char>> {
    match spec_get(raw, "ip_addrs"@) {
        Some(JsonView::Array(items)) => spec_strings(items),
        _ => seq![],
    }
}

fn strings_of(items: &Vec<JsonValue>) -> (r: Vec<String>)
    ensures
        r@.map_values(|s: String| s@) == spec_strings(items@.map_values(|x: JsonValue| x@)),
{
    let ghost iv = items@.map_values(|x: JsonValue| x@);
    let mut out: Vec<String> = Vec::new();
    let mut i: usize = 0;
    while i < items.len()
        invariant
            i <= items@.len(),
            iv == items@.map_values(|x: JsonValue| x@),
            out@.map_values(|s: String| s@) == spec_strings(iv.take(i as int)),
        decreases items@.len() - i,
    {
        proof {
            assert(iv.take(i + 1).drop_last() =~= iv.take(i as int));
            assert(iv.take(i + 1).last() == items@[i as int]@);
        }
        let ghost before = out@;
        match &items[i] {
            JsonValue::Str(s) => {
                out.push(s.clone());
                proof {
                    assert(out@.map_values(|s: String| s@) =~= before.map_values(|s: String| s@).push(items@[i as int]->Str_0@));
                }
            },
            _ => {},
        }
        i = i + 1;
    }
    proof {
        assert(iv.take(items@.len() as int) =~= iv);
    }
    out
}

/// The host details in a sysinfo record.
pub open spec fn spec_sysinfo(info: SysInfo, raw: JsonView) -> bool {
    &&& opt_text(info.timezone) == spec_as_str(spec_get(raw, "timezone"@))
    &&& info.autobackup == spec_as_bool(spec_get(raw, "autobackup"@))
    &&& opt_text(info.hostname) == spec_as_str(spec_get(raw, "hostname"@))
    &&& info.ip_addrs@.map_values(|s: String| s@) == spec_ip_addrs(raw)
    &&& opt_text(info.live_chat) == spec_as_str(spec_get(raw, "live_chat"@))
    &&& info.data_retention_days == (match spec_as_u64(spec_get(raw, "data_retention_days"@)) {
        Some(n) => Some(n as u32),
        None => None,
    })
    &&& info.extra@ == raw
}

/// The host details of a sysinfo record, keeping the record; see
/// [`spec_sysinfo`].
pub fn get_sysinfo(raw: JsonValue) -> (r: SysInfo)
    ensures
        spec_sysinfo(r, raw@),
{
    let ip_addrs = match get(&raw, "ip_addrs") {
        Some(JsonValue::Array(items)) => {
            proof {
                assert(spec_get(raw@, "ip_addrs"@) == Some(JsonView::Array(items@.map_values(|x: JsonValue| x@)))) by {
                    if let Some(JsonView::Array(v)) = spec_get(raw@, "ip_addrs"@) {
                        assert(v =~= items@.map_values(|x: JsonValue| x@));
                    }
                }
            }
            strings_of(items)
        },
        _ => {
            let none: Vec<String> = Vec::new();
            proof {
                assert(none@.map_values(|s: String| s@) =~= spec_ip_addrs(raw@));
            }
            none
        },
    };
    let days = match member_u64(&raw, "data_retention_days") {
        Some(n) => Some(n as u32),
        None => None,
    };
    SysInfo {
        timezone: text_of(get(&raw, "timezone")),
        autobackup: member_bool(&raw, "autobackup"),
        hostname: text_of(get(&raw, "hostname")),
        ip_addrs,
        live_chat: text_of(get(&raw, "live_chat")),
        data_retention_days: days,
        extra: raw,
    }
}

/// Where a VPN key sorts among the four.
pub open spec fn spec_key_rank(key: Seq<char>) -> int {
    if key == "magic_site_to_site_vpn"@ {
        0
    } else if key == "openvpn"@ {
        1
    } else if key == "peer_to_peer"@ {
        2
    } else {
        3
    }
}

proof fn lemma_settings_with_key(raws: Seq<JsonView>, key: Seq<char>)
    ensures
        forall|i: int|
            0 <= i < spec_settings_with_key(raws, key).len() ==> (#[trigger] spec_settings_with_key(raws, key)[i]).0
                == key,
    decreases raws.len(),
{
    if raws.len() > 0 {
        lemma_settings_with_key(raws.drop_last(), key);
        let rest = spec_settings_with_key(raws.drop_last(), key);
        let cur = spec_settings_with_key(raws, key);
        assert forall|i: int| 0 <= i < cur.len() implies (#[trigger] cur[i]).0 == key by {
            if i < rest.len() {
                assert(cur[i] == rest[i]);
            }
        }
    }
}

/// The VPN settings come out ordered by key: a setting never follows one
/// whose key sorts after its own.
pub proof fn law_vpn_settings_are_listed_in_key_order(raws: Seq<JsonView>)
    ensures
        forall|i: int, j: int|
            0 <= i < j < spec_list_vpn_settings(raws).len() ==> spec_key_rank(
                (#[trigger] spec_list_vpn_settings(raws)[i]).0,
            ) <= spec_key_rank((#[trigger] spec_list_vpn_settings(raws)[j]).0),
{
    let a = spec_settings_with_key(raws, "magic_site_to_site_vpn"@);
    let b = spec_settings_with_key(raws, "openvpn"@);
    let c = spec_settings_with_key(raws, "peer_to_peer"@);
    let d = spec_settings_with_key(raws, "teleport"@);
    lemma_settings_with_key(raws, "magic_site_to_site_vpn"@);
    lemma_settings_with_key(raws, "openvpn"@);
    lemma_settings_with_key(raws, "peer_to_peer"@);
    lemma_settings_with_key(raws, "teleport"@);
    reveal_strlit("magic_site_to_site_vpn");
    reveal_strlit("openvpn");
    reveal_strlit("peer_to_peer");
    reveal_strlit("teleport");
    assert("magic_site_to_site_vpn"@.len() == 22 && "openvpn"@.len() == 7);
    assert("peer_to_peer"@.len() == 12 && "teleport"@.len() == 8);
    assert(spec_key_rank("magic_site_to_site_vpn"@) == 0);
    assert("openvpn"@ != "magic_site_to_site_vpn"@ && spec_key_rank("openvpn"@) == 1);
    assert("peer_to_peer"@ != "magic_site_to_site_vpn"@ && "peer_to_peer"@ != "openvpn"@);
    assert(spec_key_rank("peer_to_peer"@) == 2);
    assert("teleport"@ != "magic_site_to_site_vpn"@ && "teleport"@ != "openvpn"@ && "teleport"@ != "peer_to_peer"@);
    assert(spec_key_rank("teleport"@) == 3);
    let all = spec_list_vpn_settings(raws);
    assert forall|k: int| 0 <= k < all.len() implies spec_key_rank((#[trigger] all[k]).0) == (if k < a.len() {
        0int
    } else if k < a.len() + b.len() {
        1int
    } else if k < a.len() + b.len() + c.len() {
        2int
    } else {
        3int
    }) by {
        if k < a.len() {
            assert(all[k] == a[k]);
            assert(a[k].0 == "magic_site_to_site_vpn"@);
        } else if k < a.len() + b.len() {
            assert(all[k] == b[k - a.len()]);
            assert(b[k - a.len()].0 == "openvpn"@);
        } else if k < a.len() + b.len() + c.len() {
            assert(all[k] == c[k - a.len() - b.len()]);
            assert(c[k - a.len() - b.len()].0 == "peer_to_peer"@);
        } else {
            assert(all[k] == d[k - a.len() - b.len() - c.len()]);
            assert(d[k - a.len() - b.len() - c.len()].0 == "teleport"@);
        }
    }
}

/// A VPN setting's fields leave out the record's bookkeeping members and
/// hold every secret, at any depth, masked.
pub proof fn law_vpn_fields_hide_bookkeeping_and_secrets(raw: JsonView)
    requires
        spec_vpn_setting(raw) is Some,
    ensures
        ({
            let fields = spec_vpn_setting(raw)->Some_0.2;
            &&& forall|i: int| 0 <= i < fields.len() ==> !spec_is_bookkeeping((#[trigger] fields[i]).0)
            &&& spec_masked(JsonView::Object(fields))
        }),
{
    if let JsonView::Object(entries) = raw {
        let pred = |e: (Seq<char>, JsonView)| !spec_is_bookkeeping(e.0);
        let kept = entries.filter(pred);
        let fields = spec_vpn_fields(entries);
        assert forall|i: int| 0 <= i < fields.len() implies !spec_is_bookkeeping((#[trigger] fields[i]).0) by {
            entries.lemma_filter_pred(pred, i);
            assert(fields[i].0 == kept[i].0);
        }
        law_redaction_masks_every_secret(JsonView::Object(kept));
    }
}

/// Deep packet inspection is on exactly when the first `dpi` setting says
/// `enabled: true`; later `dpi` settings do not count, and with no `dpi`
/// setting it is off.
pub proof fn law_dpi_follows_the_first_dpi_setting(settings: Seq<JsonView>, i: int)
    ensures
        0 <= i < settings.len() && spec_setting_has_key(settings[i], "dpi"@) && (forall|k: int|
            0 <= k < i ==> !spec_setting_has_key(#[trigger] settings[k], "dpi"@)) ==> (
        spec_dpi_enabled(settings) <==> spec_as_bool(spec_get(settings[i], "enabled"@)) == Some(true)),
        (forall|k: int| 0 <= k < settings.len() ==> !spec_setting_has_key(#[trigger] settings[k], "dpi"@))
            ==> !spec_dpi_enabled(settings),
    decreases settings.len(),
{
    if settings.len() > 0 {
        let rest = settings.drop_first();
        law_dpi_follows_the_first_dpi_setting(rest, i - 1);
        if 0 < i < settings.len() && (forall|k: int|
            0 <= k < i ==> !spec_setting_has_key(#[trigger] settings[k], "dpi"@)) {
            assert(!spec_setting_has_key(settings[0], "dpi"@));
            assert(rest[i - 1] == settings[i]);
            assert forall|k: int| 0 <= k < i - 1 implies !spec_setting_has_key(#[trigger] rest[k], "dpi"@) by {
                assert(rest[k] == settings[k + 1]);
            }
        }
        if forall|k: int| 0 <= k < settings.len() ==> !spec_setting_has_key(#[trigger] settings[k], "dpi"@) {
            assert(!spec_setting_has_key(settings[0], "dpi"@));
            assert forall|k: int| 0 <= k < rest.len() implies !spec_setting_has_key(#[trigger] rest[k], "dpi"@) by {
                assert(rest[k] == settings[k + 1]);
            }
        }
    }
}

/// A raw site setting is a VPN setting exactly when it is an object whose
/// `key` is one of the four VPN services, and it then keeps that key.
pub proof fn law_vpn_setting_keeps_key_and_flag(raw: JsonView)
    ensures
        spec_vpn_setting(raw) matches Some(v) ==> (spec_get(raw, "key"@) == Some(JsonView::Str(v.0))
            && spec_is_vpn_key(v.0)),
        (spec_get(raw, "key"@) matches Some(JsonView::Str(k)) && spec_is_vpn_key(k)) ==> spec_vpn_setting(
            raw,
        ) is Some,
        spec_is_vpn_key("teleport"@) && spec_is_vpn_key("magic_site_to_site_vpn"@) && spec_is_vpn_key(
            "openvpn"@,
        ) && spec_is_vpn_key("peer_to_peer"@),
{
}

} // verus!
