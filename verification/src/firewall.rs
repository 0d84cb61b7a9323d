//! Firewall policy inputs: folding CLI/JSON shorthand fields and firewall
//! group references into canonical source/destination traffic filters.

use vstd::prelude::*;

use crate::text::{owned, str_eq};

verus! {

/// Policy action as given on the command line.
#[derive(Debug, Clone, Copy, PartialEq, Eq, Structural)]
pub enum FirewallAction {
    Allow,
    Block,
    Reject,
}

/// Policy action as the controller model spells it.
#[derive(Debug, Clone, Copy, PartialEq, Eq, Structural)]
pub enum ModelFirewallAction {
    Allow,
    Block,
    Reject,
}

/// Identifier of a controller entity (a zone, a network, ...).
#[derive(Debug, Clone, PartialEq, Eq)]
pub struct EntityId {
    pub value: String,
}

impl EntityId {
    /// Builds an identifier from its textual form.
    pub fn new(value: &str) -> (r: EntityId)
        ensures
            r.value@ == value@,
    {
        EntityId { value: owned(value) }
    }
}

/// Port side of a traffic filter.
#[derive(Debug, Clone, PartialEq, Eq)]
pub enum PortSpec {
    Values { items: Vec<String>, match_opposite: bool },
    MatchingList { list_id: String, match_opposite: bool },
}

/// A canonical source or destination traffic filter.
#[derive(Debug, Clone, PartialEq, Eq)]
pub enum TrafficFilterSpec {
    Network { network_ids: Vec<String>, match_opposite: bool, ports: Option<PortSpec> },
    IpAddress { addresses: Vec<String>, match_opposite: bool, ports: Option<PortSpec> },
    IpMatchingList { list_id: String, match_opposite: bool, ports: Option<PortSpec> },
    Port { ports: PortSpec },
}

/// Errors reported back to the command line.
#[derive(Debug)]
pub enum CliError {
    Validation { field: String, reason: String },
}

/// Kind of a firewall group.
#[derive(Debug, Clone, Copy, PartialEq, Eq, Structural)]
pub enum FirewallGroupType {
    PortGroup,
    AddressGroup,
    Ipv6AddressGroup,
}

/// A firewall group as the controller reports it.
#[derive(Debug, Clone)]
pub struct FirewallGroup {
    pub name: String,
    pub group_type: FirewallGroupType,
    pub external_id: Option<String>,
}

/// `err` is a validation error with exactly this field and reason.
pub open spec fn is_validation(err: CliError, field: Seq<char>, reason: Seq<char>) -> bool {
    match err {
        CliError::Validation { field: f, reason: r } => f@ == field && r@ == reason,
    }
}

pub open spec fn spec_group_type_label(t: FirewallGroupType) -> Seq<char> {
    match t {
        FirewallGroupType::PortGroup => "port-group"@,
        FirewallGroupType::AddressGroup => "address-group"@,
        FirewallGroupType::Ipv6AddressGroup => "ipv6-address-group"@,
    }
}

/// The label a group kind is shown with in messages.
pub fn group_type_label(t: FirewallGroupType) -> (r: &'static str)
    ensures
        r@ == spec_group_type_label(t),
{
    match t {
        FirewallGroupType::PortGroup => "port-group",
        FirewallGroupType::AddressGroup => "address-group",
        FirewallGroupType::Ipv6AddressGroup => "ipv6-address-group",
    }
}

fn validation(field: String, reason: String) -> (e: CliError)
    ensures
        is_validation(e, field@, reason@),
{
    CliError::Validation { field, reason }
}

/// Maps the command-line action onto the model action of the same name.
pub fn map_fw_action(action: &FirewallAction) -> (r: ModelFirewallAction)
    ensures
        r == match *action {
            FirewallAction::Allow => ModelFirewallAction::Allow,
            FirewallAction::Block => ModelFirewallAction::Block,
            FirewallAction::Reject => ModelFirewallAction::Reject,
        },
{
    match action {
        FirewallAction::Allow => ModelFirewallAction::Allow,
        FirewallAction::Block => ModelFirewallAction::Block,
        FirewallAction::Reject => ModelFirewallAction::Reject,
    }
}

/// Default of the `enabled` field of a new policy.
pub fn default_true() -> (r: bool)
    ensures
        r,
{
    true
}

// ── Inline shorthand fields ───────────────────────────────────────────

/// Outcome of folding one side's shorthand fields.
pub enum SideVerdict {
    /// Both a network list and an address list were given.
    NetworkAndIp,
    /// Shorthand fields were given together with a full filter.
    ShorthandAndFilter,
    /// The resolved filter.
    Resolved(Option<TrafficFilterSpec>),
}

/// The filter built from shorthand fields alone.
pub open spec fn spec_shorthand_filter(
    networks: Option<Vec<String>>,
    ips: Option<Vec<String>>,
    ports: Option<Vec<String>>,
) -> Option<TrafficFilterSpec> {
    let port_spec = match ports {
        Some(items) => Some(PortSpec::Values { items, match_opposite: false }),
        None => None,
    };
    match networks {
        Some(network_ids) => Some(
            TrafficFilterSpec::Network { network_ids, match_opposite: false, ports: port_spec },
        ),
        None => match ips {
            Some(addresses) => Some(
                TrafficFilterSpec::IpAddress { addresses, match_opposite: false, ports: port_spec },
            ),
            None => match port_spec {
                Some(p) => Some(TrafficFilterSpec::Port { ports: p }),
                None => None,
            },
        },
    }
}

pub open spec fn spec_resolve_side(
    existing: Option<TrafficFilterSpec>,
    networks: Option<Vec<String>>,
    ips: Option<Vec<String>>,
    ports: Option<Vec<String>>,
) -> SideVerdict {
    if networks is Some && ips is Some {
        SideVerdict::NetworkAndIp
    } else if (networks is Some || ips is Some || ports is Some) && existing is Some {
        SideVerdict::ShorthandAndFilter
    } else if existing is Some {
        SideVerdict::Resolved(existing)
    } else {
        SideVerdict::Resolved(spec_shorthand_filter(networks, ips, ports))
    }
}

/// The name of the full-filter field on a side.
pub open spec fn spec_filter_field_name(prefix: Seq<char>) -> Seq<char> {
    if prefix == "src"@ {
        "source_filter"@
    } else {
        "destination_filter"@
    }
}

/// The error a refusal to fold shorthand fields carries.
pub open spec fn side_error(verdict: SideVerdict, prefix: Seq<char>, e: CliError) -> bool {
    match verdict {
        SideVerdict::NetworkAndIp => is_validation(
            e,
            prefix + "-filter"@,
            "cannot combine --"@ + prefix + "-network and --"@ + prefix + "-ip"@,
        ),
        SideVerdict::ShorthandAndFilter => is_validation(
            e,
            prefix + "-filter"@,
            "cannot combine shorthand fields with "@ + spec_filter_field_name(prefix),
        ),
        SideVerdict::Resolved(_) => false,
    }
}

/// Result of folding shorthand fields, together with the error a refusal carries.
pub open spec fn side_outcome(
    prefix: Seq<char>,
    existing: Option<TrafficFilterSpec>,
    networks: Option<Vec<String>>,
    ips: Option<Vec<String>>,
    ports: Option<Vec<String>>,
    r: Result<Option<TrafficFilterSpec>, CliError>,
) -> bool {
    match spec_resolve_side(existing, networks, ips, ports) {
        SideVerdict::Resolved(f) => r == Ok::<Option<TrafficFilterSpec>, CliError>(f),
        v => r matches Err(e) && side_error(v, prefix, e),
    }
}

/// Folds one side's `--network`, `--ip` and `--port` shorthands into a filter.
pub fn resolve_filter_side(
    field_prefix: &str,
    existing: Option<TrafficFilterSpec>,
    networks: Option<Vec<String>>,
    ips: Option<Vec<String>>,
    ports: Option<Vec<String>>,
) -> (r: Result<Option<TrafficFilterSpec>, CliError>)
    ensures
        side_outcome(field_prefix@, existing, networks, ips, ports, r),
{
    if networks.is_some() && ips.is_some() {
        let mut field = owned(field_prefix);
        field.append("-filter");
        let mut reason = owned("cannot combine --");
        reason.append(field_prefix);
        reason.append("-network and --");
        reason.append(field_prefix);
        reason.append("-ip");
        return Err(validation(field, reason));
    }
    let has_shorthand = networks.is_some() || ips.is_some() || ports.is_some();
    if has_shorthand && existing.is_some() {
        let field_name = if str_eq(field_prefix, "src") {
            "source_filter"
        } else {
            "destination_filter"
        };
        let mut field = owned(field_prefix);
        field.append("-filter");
        let mut reason = owned("cannot combine shorthand fields with ");
        reason.append(field_name);
        return Err(validation(field, reason));
    }
    if let Some(existing) = existing {
        return Ok(Some(existing));
    }
    let port_spec = match ports {
        Some(items) => Some(PortSpec::Values { items, match_opposite: false }),
        None => None,
    };
    if let Some(network_ids) = networks {
        Ok(Some(TrafficFilterSpec::Network { network_ids, match_opposite: false, ports: port_spec }))
    } else if let Some(addresses) = ips {
        Ok(Some(TrafficFilterSpec::IpAddress { addresses, match_opposite: false, ports: port_spec }))
    } else {
        match port_spec {
            Some(p) => Ok(Some(TrafficFilterSpec::Port { ports: p })),
            None => Ok(None),
        }
    }
}

/// Requires both zones of a reorder request.
pub fn parse_reorder_zone_pair(source_zone: Option<&str>, dest_zone: Option<&str>) -> (r: Result<
    (EntityId, EntityId),
    CliError,
>)
    ensures
        match (source_zone, dest_zone) {
            (Some(s), Some(d)) => r matches Ok(pair) && pair.0.value@ == s@ && pair.1.value@
                == d@,
            _ => r matches Err(e) && is_validation(
                e,
                "zone-pair"@,
                "firewall policy reordering requires both --source-zone and --dest-zone"@,
            ),
        },
{
    match (source_zone, dest_zone) {
        (Some(source_zone), Some(dest_zone)) => Ok(
            (EntityId::new(source_zone), EntityId::new(dest_zone)),
        ),
        _ => Err(
            validation(
                owned("zone-pair"),
                owned("firewall policy reordering requires both --source-zone and --dest-zone"),
            ),
        ),
    }
}

// ── Firewall group references ─────────────────────────────────────────

/// Index of the first group called `name`, if any.
pub open spec fn spec_find_group(groups: Seq<FirewallGroup>, name: Seq<char>) -> Option<int>
    decreases groups.len(),
{
    if groups.len() == 0 {
        None
    } else if groups.last().name@ == name {
        match spec_find_group(groups.drop_last(), name) {
            Some(i) => Some(i),
            None => Some(groups.len() - 1),
        }
    } else {
        spec_find_group(groups.drop_last(), name)
    }
}

proof fn lemma_find_group_is_first(groups: Seq<FirewallGroup>, name: Seq<char>)
    ensures
        match spec_find_group(groups, name) {
            Some(i) => 0 <= i < groups.len() && groups[i].name@ == name && forall|k: int|
                0 <= k < i ==> groups[k].name@ != name,
            None => forall|k: int| 0 <= k < groups.len() ==> groups[k].name@ != name,
        },
    decreases groups.len(),
{
    if groups.len() > 0 {
        lemma_find_group_is_first(groups.drop_last(), name);
        assert(forall|k: int| 0 <= k < groups.len() - 1 ==> groups.drop_last()[k] == groups[k]);
    }
}

proof fn lemma_find_group_prefix(groups: Seq<FirewallGroup>, name: Seq<char>, i: int)
    requires
        0 <= i < groups.len(),
        groups[i].name@ == name,
        forall|k: int| 0 <= k < i ==> groups[k].name@ != name,
    ensures
        spec_find_group(groups, name) == Some(i),
    decreases groups.len(),
{
    lemma_find_group_is_first(groups, name);
    if i < groups.len() - 1 {
        lemma_find_group_prefix(groups.drop_last(), name, i);
    } else {
        lemma_find_group_is_first(groups.drop_last(), name);
    }
}

proof fn lemma_find_group_none(groups: Seq<FirewallGroup>, name: Seq<char>)
    requires
        forall|k: int| 0 <= k < groups.len() ==> groups[k].name@ != name,
    ensures
        spec_find_group(groups, name) is None,
{
    lemma_find_group_is_first(groups, name);
}

/// Looks up a group by name: the index of the first match.
pub fn find_group(name: &str, groups: &[FirewallGroup]) -> (r: Option<usize>)
    ensures
        match r {
            Some(i) => spec_find_group(groups@, name@) == Some(i as int),
            None => spec_find_group(groups@, name@) is None,
        },
{
    let mut i: usize = 0;
    while i < groups.len()
        invariant
            i <= groups.len(),
            forall|k: int| 0 <= k < i ==> groups@[k].name@ != name@,
        decreases groups.len() - i,
    {
        if str_eq(groups[i].name.as_str(), name) {
            proof {
                lemma_find_group_prefix(groups@, name@, i as int);
            }
            return Some(i);
        }
        i = i + 1;
    }
    proof {
        lemma_find_group_none(groups@, name@);
    }
    None
}

/// Outcome of looking up a group reference.
pub enum GroupLookup {
    NotFound,
    WrongType(FirewallGroupType),
    NoExternalId,
    Found(int),
}

pub open spec fn spec_lookup_group(
    groups: Seq<FirewallGroup>,
    name: Seq<char>,
    accepts: spec_fn(FirewallGroupType) -> bool,
) -> GroupLookup {
    match spec_find_group(groups, name) {
        None => GroupLookup::NotFound,
        Some(i) => if !accepts(groups[i].group_type) {
            GroupLookup::WrongType(groups[i].group_type)
        } else if groups[i].external_id is None {
            GroupLookup::NoExternalId
        } else {
            GroupLookup::Found(i)
        },
    }
}

pub open spec fn is_port_group(t: FirewallGroupType) -> bool {
    t == FirewallGroupType::PortGroup
}

pub open spec fn is_address_group(t: FirewallGroupType) -> bool {
    t == FirewallGroupType::AddressGroup || t == FirewallGroupType::Ipv6AddressGroup
}

/// The error messages of a group lookup for `field` ("port_group" or
/// "address_group") and the kind word ("port-group" or "an address-group").
pub open spec fn lookup_error(
    lookup: GroupLookup,
    field: Seq<char>,
    name: Seq<char>,
    expected: Seq<char>,
    e: CliError,
) -> bool {
    match lookup {
        GroupLookup::NotFound => is_validation(
            e,
            field,
            "firewall group \""@ + name + "\" not found"@,
        ),
        GroupLookup::WrongType(t) => is_validation(
            e,
            field,
            "firewall group \""@ + name + "\" is a "@ + spec_group_type_label(t) + ", not "@
                + expected,
        ),
        GroupLookup::NoExternalId => is_validation(
            e,
            field,
            "firewall group \""@ + name + "\" has no external_id"@,
        ),
        GroupLookup::Found(_) => false,
    }
}

fn not_found_error(field: &str, name: &str) -> (e: CliError)
    ensures
        is_validation(e, field@, "firewall group \""@ + name@ + "\" not found"@),
{
    let mut reason = owned("firewall group \"");
    reason.append(name);
    reason.append("\" not found");
    validation(owned(field), reason)
}

fn wrong_type_error(field: &str, name: &str, t: FirewallGroupType, expected: &str) -> (e: CliError)
    ensures
        is_validation(
            e,
            field@,
            "firewall group \""@ + name@ + "\" is a "@ + spec_group_type_label(t) + ", not "@
                + expected@,
        ),
{
    let mut reason = owned("firewall group \"");
    reason.append(name);
    reason.append("\" is a ");
    reason.append(group_type_label(t));
    reason.append(", not ");
    reason.append(expected);
    validation(owned(field), reason)
}

fn no_external_id_error(field: &str, name: &str) -> (e: CliError)
    ensures
        is_validation(e, field@, "firewall group \""@ + name@ + "\" has no external_id"@),
{
    let mut reason = owned("firewall group \"");
    reason.append(name);
    reason.append("\" has no external_id");
    validation(owned(field), reason)
}

/// Resolves a port-group name to a matching-list port spec.
pub fn resolve_port_group_spec(name: &str, groups: &[FirewallGroup]) -> (r: Result<
    PortSpec,
    CliError,
>)
    ensures
        match spec_lookup_group(groups@, name@, |t: FirewallGroupType| is_port_group(t)) {
            GroupLookup::Found(i) => r matches Ok(PortSpec::MatchingList { list_id, match_opposite })
                && list_id@ == groups@[i].external_id.unwrap()@ && !match_opposite,
            other => r matches Err(e) && lookup_error(
                other,
                "port_group"@,
                name@,
                "a port-group"@,
                e,
            ),
        },
{
    let found = find_group(name, groups);
    let i = match found {
        None => {
            return Err(not_found_error("port_group", name));
        },
        Some(i) => i,
    };
    proof {
        lemma_find_group_is_first(groups@, name@);
    }
    let group = &groups[i];
    if group.group_type != FirewallGroupType::PortGroup {
        return Err(wrong_type_error("port_group", name, group.group_type, "a port-group"));
    }
    match &group.external_id {
        None => Err(no_external_id_error("port_group", name)),
        Some(list_id) => Ok(PortSpec::MatchingList { list_id: list_id.clone(), match_opposite: false }),
    }
}

/// Resolves an address-group name to its external list id.
pub fn resolve_address_group_id(name: &str, groups: &[FirewallGroup]) -> (r: Result<
    String,
    CliError,
>)
    ensures
        match spec_lookup_group(groups@, name@, |t: FirewallGroupType| is_address_group(t)) {
            GroupLookup::Found(i) => r matches Ok(id) && id@ == groups@[i].external_id.unwrap()@,
            other => r matches Err(e) && lookup_error(
                other,
                "address_group"@,
                name@,
                "an address-group"@,
                e,
            ),
        },
{
    let found = find_group(name, groups);
    let i = match found {
        None => {
            return Err(not_found_error("address_group", name));
        },
        Some(i) => i,
    };
    proof {
        lemma_find_group_is_first(groups@, name@);
    }
    let group = &groups[i];
    if group.group_type != FirewallGroupType::AddressGroup && group.group_type
        != FirewallGroupType::Ipv6AddressGroup {
        return Err(wrong_type_error("address_group", name, group.group_type, "an address-group"));
    }
    match &group.external_id {
        None => Err(no_external_id_error("address_group", name)),
        Some(list_id) => Ok(list_id.clone()),
    }
}

// ── Merging group references into filters ─────────────────────────────

/// Outcome of merging resolved group references into an existing filter.
pub enum MergeVerdict {
    Merged(TrafficFilterSpec),
    /// An address group next to an address-side filter.
    AddressConflict,
    /// A port group next to a filter that already has a port scope.
    PortConflict,
}

pub open spec fn spec_merge_into_existing(
    filter: TrafficFilterSpec,
    address_group_id: Option<String>,
    port_group_spec: Option<PortSpec>,
) -> MergeVerdict {
    match (filter, address_group_id, port_group_spec) {
        (TrafficFilterSpec::Network { .. }, Some(_), _) => MergeVerdict::AddressConflict,
        (TrafficFilterSpec::IpAddress { .. }, Some(_), _) => MergeVerdict::AddressConflict,
        (TrafficFilterSpec::IpMatchingList { .. }, Some(_), _) => MergeVerdict::AddressConflict,
        (TrafficFilterSpec::Port { ports }, Some(list_id), None) => MergeVerdict::Merged(
            TrafficFilterSpec::IpMatchingList { list_id, match_opposite: false, ports: Some(ports) },
        ),
        (
            TrafficFilterSpec::Network { network_ids, match_opposite, ports: None },
            None,
            Some(spec),
        ) => MergeVerdict::Merged(
            TrafficFilterSpec::Network { network_ids, match_opposite, ports: Some(spec) },
        ),
        (
            TrafficFilterSpec::IpAddress { addresses, match_opposite, ports: None },
            None,
            Some(spec),
        ) => MergeVerdict::Merged(
            TrafficFilterSpec::IpAddress { addresses, match_opposite, ports: Some(spec) },
        ),
        (
            TrafficFilterSpec::IpMatchingList { list_id, match_opposite, ports: None },
            None,
            Some(spec),
        ) => MergeVerdict::Merged(
            TrafficFilterSpec::IpMatchingList { list_id, match_opposite, ports: Some(spec) },
        ),
        (_, _, Some(_)) => MergeVerdict::PortConflict,
        (filter, None, None) => MergeVerdict::Merged(filter),
    }
}

/// The error a merge refusal carries on `side`.
pub open spec fn merge_error(verdict: MergeVerdict, side: Seq<char>, e: CliError) -> bool {
    match verdict {
        MergeVerdict::AddressConflict => is_validation(
            e,
            side + "_address_group"@,
            "--"@ + side + "-address-group conflicts with --"@ + side + "-network or --"@ + side
                + "-ip"@,
        ),
        MergeVerdict::PortConflict => is_validation(
            e,
            side + "_port_group"@,
            "--"@ + side + "-port-group conflicts with --"@ + side + "-port"@,
        ),
        MergeVerdict::Merged(_) => false,
    }
}

pub open spec fn merge_outcome(
    verdict: MergeVerdict,
    side: Seq<char>,
    r: Result<TrafficFilterSpec, CliError>,
) -> bool {
    match verdict {
        MergeVerdict::Merged(f) => r == Ok::<TrafficFilterSpec, CliError>(f),
        _ => r matches Err(e) && merge_error(verdict, side, e),
    }
}

fn address_conflict(side: &str) -> (e: CliError)
    ensures
        merge_error(MergeVerdict::AddressConflict, side@, e),
{
    let mut field = owned(side);
    field.append("_address_group");
    let mut reason = owned("--");
    reason.append(side);
    reason.append("-address-group conflicts with --");
    reason.append(side);
    reason.append("-network or --");
    reason.append(side);
    reason.append("-ip");
    validation(field, reason)
}

fn port_conflict(side: &str) -> (e: CliError)
    ensures
        merge_error(MergeVerdict::PortConflict, side@, e),
{
    let mut field = owned(side);
    field.append("_port_group");
    let mut reason = owned("--");
    reason.append(side);
    reason.append("-port-group conflicts with --");
    reason.append(side);
    reason.append("-port");
    validation(field, reason)
}

/// Merges resolved group references into an existing filter as companions,
/// upgrading a port-only filter to an address matching list.
pub fn merge_into_existing(
    side: &str,
    filter: TrafficFilterSpec,
    address_group_id: Option<String>,
    port_group_spec: Option<PortSpec>,
) -> (r: Result<TrafficFilterSpec, CliError>)
    ensures
        merge_outcome(
            spec_merge_into_existing(filter, address_group_id, port_group_spec),
            side@,
            r,
        ),
{
    match (filter, address_group_id, port_group_spec) {
        (TrafficFilterSpec::Network { .. }, Some(_), _) => Err(address_conflict(side)),
        (TrafficFilterSpec::IpAddress { .. }, Some(_), _) => Err(address_conflict(side)),
        (TrafficFilterSpec::IpMatchingList { .. }, Some(_), _) => Err(address_conflict(side)),
        (TrafficFilterSpec::Port { ports }, Some(list_id), None) => Ok(
            TrafficFilterSpec::IpMatchingList { list_id, match_opposite: false, ports: Some(ports) },
        ),
        (
            TrafficFilterSpec::Network { network_ids, match_opposite, ports: None },
            None,
            Some(spec),
        ) => Ok(TrafficFilterSpec::Network { network_ids, match_opposite, ports: Some(spec) }),
        (
            TrafficFilterSpec::IpAddress { addresses, match_opposite, ports: None },
            None,
            Some(spec),
        ) => Ok(TrafficFilterSpec::IpAddress { addresses, match_opposite, ports: Some(spec) }),
        (
            TrafficFilterSpec::IpMatchingList { list_id, match_opposite, ports: None },
            None,
            Some(spec),
        ) => Ok(TrafficFilterSpec::IpMatchingList { list_id, match_opposite, ports: Some(spec) }),
        (_, _, Some(_)) => Err(port_conflict(side)),
        (filter, None, None) => Ok(filter),
    }
}

/// The filter built from group references when there is no existing filter.
pub open spec fn spec_fresh_group_filter(
    address_group_id: Option<String>,
    port_group_spec: Option<PortSpec>,
) -> Option<TrafficFilterSpec> {
    match (address_group_id, port_group_spec) {
        (Some(list_id), None) => Some(
            TrafficFilterSpec::IpMatchingList { list_id, match_opposite: false, ports: None },
        ),
        (None, Some(spec)) => Some(TrafficFilterSpec::Port { ports: spec }),
        (Some(list_id), Some(spec)) => Some(
            TrafficFilterSpec::IpMatchingList { list_id, match_opposite: false, ports: Some(spec) },
        ),
        (None, None) => None,
    }
}

/// How one side's group references resolve against the group list.
pub open spec fn group_refs_outcome(
    side: Seq<char>,
    existing: Option<TrafficFilterSpec>,
    address_group: Option<String>,
    port_group: Option<String>,
    groups: Seq<FirewallGroup>,
    r: Result<Option<TrafficFilterSpec>, CliError>,
) -> bool {
    let port_lookup = match port_group {
        Some(n) => spec_lookup_group(groups, n@, |t: FirewallGroupType| is_port_group(t)),
        None => GroupLookup::Found(-1),
    };
    let addr_lookup = match address_group {
        Some(n) => spec_lookup_group(groups, n@, |t: FirewallGroupType| is_address_group(t)),
        None => GroupLookup::Found(-1),
    };
    if address_group is None && port_group is None {
        r == Ok::<Option<TrafficFilterSpec>, CliError>(existing)
    } else if !(port_lookup is Found) {
        r matches Err(e) && lookup_error(
            port_lookup,
            "port_group"@,
            port_group.unwrap()@,
            "a port-group"@,
            e,
        )
    } else if !(addr_lookup is Found) {
        r matches Err(e) && lookup_error(
            addr_lookup,
            "address_group"@,
            address_group.unwrap()@,
            "an address-group"@,
            e,
        )
    } else {
        exists|pspec: Option<PortSpec>, aid: Option<String>|
            group_refs_resolved(side, existing, address_group, port_group, groups, pspec, aid, r)
    }
}

/// Every reference resolved to `pspec` and `aid`, and `r` is what merging them gives.
pub open spec fn group_refs_resolved(
    side: Seq<char>,
    existing: Option<TrafficFilterSpec>,
    address_group: Option<String>,
    port_group: Option<String>,
    groups: Seq<FirewallGroup>,
    pspec: Option<PortSpec>,
    aid: Option<String>,
    r: Result<Option<TrafficFilterSpec>, CliError>,
) -> bool {
    let port_lookup = match port_group {
        Some(n) => spec_lookup_group(groups, n@, |t: FirewallGroupType| is_port_group(t)),
        None => GroupLookup::Found(-1),
    };
    let addr_lookup = match address_group {
        Some(n) => spec_lookup_group(groups, n@, |t: FirewallGroupType| is_address_group(t)),
        None => GroupLookup::Found(-1),
    };
    &&& pspec is Some <==> port_group is Some
    &&& aid is Some <==> address_group is Some
    &&& (pspec matches Some(p) ==> p matches PortSpec::MatchingList { list_id, match_opposite }
        && list_id@ == groups[port_lookup->Found_0].external_id.unwrap()@ && !match_opposite)
    &&& (aid matches Some(a) ==> a@ == groups[addr_lookup->Found_0].external_id.unwrap()@)
    &&& match existing {
        None => r == Ok::<Option<TrafficFilterSpec>, CliError>(spec_fresh_group_filter(aid, pspec)),
        Some(f) => match spec_merge_into_existing(f, aid, pspec) {
            MergeVerdict::Merged(m) => r == Ok::<Option<TrafficFilterSpec>, CliError>(Some(m)),
            v => r matches Err(e) && merge_error(v, side, e),
        },
    }
}

/// Merges one side's group shorthands into its canonical filter.
///
/// Must run after the inline shorthand fields are folded in.
pub fn merge_groups_into_filter(
    side: &str,
    existing: Option<TrafficFilterSpec>,
    address_group: Option<String>,
    port_group: Option<String>,
    groups: &[FirewallGroup],
) -> (r: Result<Option<TrafficFilterSpec>, CliError>)
    ensures
        group_refs_outcome(side@, existing, address_group, port_group, groups@, r),
{
    if address_group.is_none() && port_group.is_none() {
        return Ok(existing);
    }
    let port_group_spec = match &port_group {
        Some(name) => match resolve_port_group_spec(name.as_str(), groups) {
            Ok(spec) => Some(spec),
            Err(e) => {
                return Err(e);
            },
        },
        None => None,
    };
    let address_group_id = match &address_group {
        Some(name) => match resolve_address_group_id(name.as_str(), groups) {
            Ok(id) => Some(id),
            Err(e) => {
                return Err(e);
            },
        },
        None => None,
    };
    let ghost pspec = port_group_spec;
    let ghost aid = address_group_id;
    let r = match existing {
        None => match (address_group_id, port_group_spec) {
            (Some(list_id), None) => Ok(
                Some(TrafficFilterSpec::IpMatchingList { list_id, match_opposite: false, ports: None }),
            ),
            (None, Some(spec)) => Ok(Some(TrafficFilterSpec::Port { ports: spec })),
            (Some(list_id), Some(spec)) => Ok(
                Some(
                    TrafficFilterSpec::IpMatchingList {
                        list_id,
                        match_opposite: false,
                        ports: Some(spec),
                    },
                ),
            ),
            (None, None) => Ok(None),
        },
        Some(filter) => match merge_into_existing(side, filter, address_group_id, port_group_spec) {
            Ok(m) => Ok(Some(m)),
            Err(e) => Err(e),
        },
    };
    assert(group_refs_resolved(side@, existing, address_group, port_group, groups@, pspec, aid, r));
    r
}

// ── Policy filter input ───────────────────────────────────────────────

/// Source/destination filter fields of a policy create or update input:
/// full filters, inline shorthands, and firewall group references.
#[derive(Debug, Default)]
pub struct PolicyFilterInput {
    pub source_filter: Option<TrafficFilterSpec>,
    pub destination_filter: Option<TrafficFilterSpec>,
    pub src_network: Option<Vec<String>>,
    pub src_ip: Option<Vec<String>>,
    pub src_port: Option<Vec<String>>,
    pub dst_network: Option<Vec<String>>,
    pub dst_ip: Option<Vec<String>>,
    pub dst_port: Option<Vec<String>>,
    pub src_port_group: Option<String>,
    pub dst_port_group: Option<String>,
    pub src_address_group: Option<String>,
    pub dst_address_group: Option<String>,
}

impl PolicyFilterInput {
    /// No inline shorthand field is set.
    pub open spec fn shorthands_cleared(&self) -> bool {
        &&& self.src_network is None
        &&& self.src_ip is None
        &&& self.src_port is None
        &&& self.dst_network is None
        &&& self.dst_ip is None
        &&& self.dst_port is None
    }

    /// The group reference fields of `a` and `b` agree.
    pub open spec fn same_group_refs(a: &Self, b: &Self) -> bool {
        &&& a.src_port_group == b.src_port_group
        &&& a.dst_port_group == b.dst_port_group
        &&& a.src_address_group == b.src_address_group
        &&& a.dst_address_group == b.dst_address_group
    }

    pub open spec fn spec_has_group_refs(&self) -> bool {
        self.src_port_group is Some || self.dst_port_group is Some || self.src_address_group is Some
            || self.dst_address_group is Some
    }

    /// How resolving the inline shorthands turns `old` into `new`.
    pub open spec fn inline_resolution(old: &Self, new: &Self, r: Result<(), CliError>) -> bool {
        let src_r = match spec_resolve_side(
            old.source_filter,
            old.src_network,
            old.src_ip,
            old.src_port,
        ) {
            SideVerdict::Resolved(f) => Some(f),
            _ => None,
        };
        let dst_r = match spec_resolve_side(
            old.destination_filter,
            old.dst_network,
            old.dst_ip,
            old.dst_port,
        ) {
            SideVerdict::Resolved(f) => Some(f),
            _ => None,
        };
        &&& Self::same_group_refs(old, new)
        &&& new.src_network is None && new.src_ip is None && new.src_port is None
        &&& match src_r {
            None => {
                &&& r matches Err(e) && side_error(
                    spec_resolve_side(old.source_filter, old.src_network, old.src_ip, old.src_port),
                    "src"@,
                    e,
                )
                &&& new.source_filter is None
                &&& new.destination_filter == old.destination_filter
                &&& new.dst_network == old.dst_network && new.dst_ip == old.dst_ip && new.dst_port
                    == old.dst_port
            },
            Some(sf) => {
                &&& new.source_filter == sf
                &&& new.dst_network is None && new.dst_ip is None && new.dst_port is None
                &&& match dst_r {
                    None => {
                        &&& r matches Err(e) && side_error(
                            spec_resolve_side(
                                old.destination_filter,
                                old.dst_network,
                                old.dst_ip,
                                old.dst_port,
                            ),
                            "dst"@,
                            e,
                        )
                        &&& new.destination_filter is None
                    },
                    Some(df) => r is Ok && new.destination_filter == df,
                }
            },
        }
    }

    /// `r` is the outcome of folding the shorthands of `raw`.
    pub open spec fn resolution_of_raw(raw: Self, r: Result<Self, CliError>) -> bool {
        match r {
            Ok(input) => Self::inline_resolution(&raw, &input, Ok::<(), CliError>(())),
            Err(e) => exists|after: Self| #[trigger] Self::inline_resolution(&raw, &after, Err::<(), CliError>(e)),
        }
    }

    /// Builds an input from command-line flags and folds the inline
    /// shorthands into canonical filters.
    #[allow(clippy::too_many_arguments)]
    pub fn from_cli(
        src_network: Option<Vec<String>>,
        src_ip: Option<Vec<String>>,
        src_port: Option<Vec<String>>,
        dst_network: Option<Vec<String>>,
        dst_ip: Option<Vec<String>>,
        dst_port: Option<Vec<String>>,
        src_port_group: Option<String>,
        dst_port_group: Option<String>,
        src_address_group: Option<String>,
        dst_address_group: Option<String>,
    ) -> (r: Result<Self, CliError>)
        ensures
            Self::resolution_of_raw(
                PolicyFilterInput {
                    source_filter: None,
                    destination_filter: None,
                    src_network,
                    src_ip,
                    src_port,
                    dst_network,
                    dst_ip,
                    dst_port,
                    src_port_group,
                    dst_port_group,
                    src_address_group,
                    dst_address_group,
                },
                r,
            ),
    {
        let mut input = PolicyFilterInput {
            source_filter: None,
            destination_filter: None,
            src_network,
            src_ip,
            src_port,
            dst_network,
            dst_ip,
            dst_port,
            src_port_group,
            dst_port_group,
            src_address_group,
            dst_address_group,
        };
        let ghost raw = input;
        match input.resolve_inline_filters() {
            Ok(()) => {
                assert(Self::inline_resolution(&raw, &input, Ok::<(), CliError>(())));
                let r: Result<Self, CliError> = Ok(input);
                assert(Self::resolution_of_raw(raw, r));
                r
            },
            Err(e) => {
                assert(Self::inline_resolution(&raw, &input, Err::<(), CliError>(e)));
                let r: Result<Self, CliError> = Err(e);
                assert(r->Err_0 == e);
                assert(Self::resolution_of_raw(raw, r));
                r
            },
        }
    }

    /// Folds the inline `--src-*`/`--dst-*` shorthands into the source and
    /// destination filters; the shorthand fields are consumed.
    pub fn resolve_inline_filters(&mut self) -> (r: Result<(), CliError>)
        ensures
            Self::inline_resolution(old(self), final(self), r),
    {
        let ghost before = *self;
        let existing = self.source_filter.take();
        let networks = self.src_network.take();
        let ips = self.src_ip.take();
        let ports = self.src_port.take();
        match resolve_filter_side("src", existing, networks, ips, ports) {
            Ok(f) => {
                self.source_filter = f;
            },
            Err(e) => {
                return Err(e);
            },
        }
        let existing = self.destination_filter.take();
        let networks = self.dst_network.take();
        let ips = self.dst_ip.take();
        let ports = self.dst_port.take();
        match resolve_filter_side("dst", existing, networks, ips, ports) {
            Ok(f) => {
                self.destination_filter = f;
            },
            Err(e) => {
                return Err(e);
            },
        }
        Ok(())
    }

    /// Any firewall group reference is still unresolved.
    pub fn has_group_refs(&self) -> (r: bool)
        ensures
            r == self.spec_has_group_refs(),
    {
        self.src_port_group.is_some() || self.dst_port_group.is_some()
            || self.src_address_group.is_some() || self.dst_address_group.is_some()
    }

    /// How resolving the group references turns `old` into `new`.
    pub open spec fn group_resolution(
        old: &Self,
        new: &Self,
        groups: Seq<FirewallGroup>,
        r: Result<(), CliError>,
    ) -> bool {
        &&& new.src_network == old.src_network && new.src_ip == old.src_ip && new.src_port
            == old.src_port
        &&& new.dst_network == old.dst_network && new.dst_ip == old.dst_ip && new.dst_port
            == old.dst_port
        &&& new.src_port_group is None && new.src_address_group is None
        &&& exists|src_r: Result<Option<TrafficFilterSpec>, CliError>|
            {
                &&& group_refs_outcome(
                    "src"@,
                    old.source_filter,
                    old.src_address_group,
                    old.src_port_group,
                    groups,
                    src_r,
                )
                &&& match src_r {
                    Err(e) => {
                        &&& r == Err::<(), CliError>(e)
                        &&& new.source_filter is None
                        &&& new.destination_filter == old.destination_filter
                        &&& new.dst_port_group == old.dst_port_group
                        &&& new.dst_address_group == old.dst_address_group
                    },
                    Ok(sf) => {
                        &&& new.source_filter == sf
                        &&& new.dst_port_group is None && new.dst_address_group is None
                        &&& exists|dst_r: Result<Option<TrafficFilterSpec>, CliError>|
                            {
                                &&& group_refs_outcome(
                                    "dst"@,
                                    old.destination_filter,
                                    old.dst_address_group,
                                    old.dst_port_group,
                                    groups,
                                    dst_r,
                                )
                                &&& match dst_r {
                                    Err(e) => r == Err::<(), CliError>(e)
                                        && new.destination_filter is None,
                                    Ok(df) => r is Ok && new.destination_filter == df,
                                }
                            }
                    },
                }
            }
    }

    /// Replaces the group shorthands with the groups' external list ids,
    /// merged into the canonical filters.
    pub fn resolve_group_refs(&mut self, groups: &[FirewallGroup]) -> (r: Result<(), CliError>)
        ensures
            Self::group_resolution(old(self), final(self), groups@, r),
    {
        let ghost before = *self;
        let existing = self.source_filter.take();
        let address_group = self.src_address_group.take();
        let port_group = self.src_port_group.take();
        let src_r = merge_groups_into_filter("src", existing, address_group, port_group, groups);
        let ghost src_g = src_r;
        match src_r {
            Ok(f) => {
                self.source_filter = f;
            },
            Err(e) => {
                assert(Self::group_resolution(&before, self, groups@, Err::<(), CliError>(e)));
                return Err(e);
            },
        }
        let existing = self.destination_filter.take();
        let address_group = self.dst_address_group.take();
        let port_group = self.dst_port_group.take();
        let dst_r = merge_groups_into_filter("dst", existing, address_group, port_group, groups);
        let ghost dst_g = dst_r;
        let r = match dst_r {
            Ok(f) => {
                self.destination_filter = f;
                Ok(())
            },
            Err(e) => Err(e),
        };
        assert(Self::group_resolution(&before, self, groups@, r));
        r
    }

    /// The canonical source and destination filters.
    pub fn into_filters(self) -> (r: (Option<TrafficFilterSpec>, Option<TrafficFilterSpec>))
        ensures
            r == (self.source_filter, self.destination_filter),
    {
        (self.source_filter, self.destination_filter)
    }
}

// ── Create / update inputs ────────────────────────────────────────────

/// A policy creation input (from flags or a JSON file).
#[derive(Debug)]
pub struct CreatePolicyInput {
    pub name: String,
    pub action: ModelFirewallAction,
    pub source_zone_id: EntityId,
    pub destination_zone_id: EntityId,
    pub enabled: bool,
    pub logging_enabled: bool,
    pub allow_return_traffic: Option<bool>,
    pub description: Option<String>,
    pub ip_version: Option<String>,
    pub connection_states: Option<Vec<String>>,
    pub filters: PolicyFilterInput,
}

/// The controller request that creates a firewall policy.
#[derive(Debug)]
pub struct CreateFirewallPolicyRequest {
    pub name: String,
    pub action: ModelFirewallAction,
    pub source_zone_id: EntityId,
    pub destination_zone_id: EntityId,
    pub enabled: bool,
    pub logging_enabled: bool,
    pub allow_return_traffic: Option<bool>,
    pub description: Option<String>,
    pub ip_version: Option<String>,
    pub connection_states: Option<Vec<String>>,
    pub source_filter: Option<TrafficFilterSpec>,
    pub destination_filter: Option<TrafficFilterSpec>,
}

impl CreatePolicyInput {
    /// The request carrying every field and the two canonical filters.
    /// Group references must already be resolved.
    pub fn into_request(self) -> (r: CreateFirewallPolicyRequest)
        requires
            !self.filters.spec_has_group_refs(),
        ensures
            r == (CreateFirewallPolicyRequest {
                name: self.name,
                action: self.action,
                source_zone_id: self.source_zone_id,
                destination_zone_id: self.destination_zone_id,
                enabled: self.enabled,
                logging_enabled: self.logging_enabled,
                allow_return_traffic: self.allow_return_traffic,
                description: self.description,
                ip_version: self.ip_version,
                connection_states: self.connection_states,
                source_filter: self.filters.source_filter,
                destination_filter: self.filters.destination_filter,
            }),
    {
        let (source_filter, destination_filter) = self.filters.into_filters();
        CreateFirewallPolicyRequest {
            name: self.name,
            action: self.action,
            source_zone_id: self.source_zone_id,
            destination_zone_id: self.destination_zone_id,
            enabled: self.enabled,
            logging_enabled: self.logging_enabled,
            allow_return_traffic: self.allow_return_traffic,
            description: self.description,
            ip_version: self.ip_version,
            connection_states: self.connection_states,
            source_filter,
            destination_filter,
        }
    }
}

/// A policy update input: every field optional.
#[derive(Debug, Default)]
pub struct UpdatePolicyInput {
    pub name: Option<String>,
    pub action: Option<ModelFirewallAction>,
    pub allow_return_traffic: Option<bool>,
    pub enabled: Option<bool>,
    pub description: Option<String>,
    pub ip_version: Option<String>,
    pub connection_states: Option<Vec<String>>,
    pub logging_enabled: Option<bool>,
    pub filters: PolicyFilterInput,
}

/// The controller request that updates a firewall policy.
#[derive(Debug)]
pub struct UpdateFirewallPolicyRequest {
    pub name: Option<String>,
    pub action: Option<ModelFirewallAction>,
    pub allow_return_traffic: Option<bool>,
    pub enabled: Option<bool>,
    pub description: Option<String>,
    pub ip_version: Option<String>,
    pub connection_states: Option<Vec<String>>,
    pub source_filter: Option<TrafficFilterSpec>,
    pub destination_filter: Option<TrafficFilterSpec>,
    pub logging_enabled: Option<bool>,
}

impl UpdatePolicyInput {
    /// The request carrying every field and the two canonical filters.
    /// Group references must already be resolved.
    pub fn into_request(self) -> (r: UpdateFirewallPolicyRequest)
        requires
            !self.filters.spec_has_group_refs(),
        ensures
            r == (UpdateFirewallPolicyRequest {
                name: self.name,
                action: self.action,
                allow_return_traffic: self.allow_return_traffic,
                enabled: self.enabled,
                description: self.description,
                ip_version: self.ip_version,
                connection_states: self.connection_states,
                source_filter: self.filters.source_filter,
                destination_filter: self.filters.destination_filter,
                logging_enabled: self.logging_enabled,
            }),
    {
        let (source_filter, destination_filter) = self.filters.into_filters();
        UpdateFirewallPolicyRequest {
            name: self.name,
            action: self.action,
            allow_return_traffic: self.allow_return_traffic,
            enabled: self.enabled,
            description: self.description,
            ip_version: self.ip_version,
            connection_states: self.connection_states,
            source_filter,
            destination_filter,
            logging_enabled: self.logging_enabled,
        }
    }
}

// ── Laws ──────────────────────────────────────────────────────────────

/// Folding the inline shorthands a second time changes nothing: once they
/// are folded, a second pass succeeds and leaves both filters as they are.
pub proof fn law_inline_resolution_idempotent(
    a: PolicyFilterInput,
    b: PolicyFilterInput,
    c: PolicyFilterInput,
    r: Result<(), CliError>,
)
    requires
        PolicyFilterInput::inline_resolution(&a, &b, Ok::<(), CliError>(())),
        PolicyFilterInput::inline_resolution(&b, &c, r),
    ensures
        r is Ok,
        c.source_filter == b.source_filter,
        c.destination_filter == b.destination_filter,
        c.shorthands_cleared(),
        PolicyFilterInput::same_group_refs(&b, &c),
{
}

/// After the group references resolve, none is left, so the input may be
/// turned into a request.
pub proof fn law_group_resolution_clears_refs(
    a: PolicyFilterInput,
    b: PolicyFilterInput,
    groups: Seq<FirewallGroup>,
)
    requires
        PolicyFilterInput::group_resolution(&a, &b, groups, Ok::<(), CliError>(())),
    ensures
        !b.spec_has_group_refs(),
{
}

/// Without group references a side's filter passes through unchanged.
pub proof fn law_no_group_refs_keeps_filter(
    side: Seq<char>,
    existing: Option<TrafficFilterSpec>,
    groups: Seq<FirewallGroup>,
    r: Result<Option<TrafficFilterSpec>, CliError>,
)
    requires
        group_refs_outcome(side, existing, None, None, groups, r),
    ensures
        r == Ok::<Option<TrafficFilterSpec>, CliError>(existing),
{
}

/// The port restriction a filter carries, if any.
pub open spec fn filter_port_restriction(f: TrafficFilterSpec) -> Option<PortSpec> {
    match f {
        TrafficFilterSpec::Network { ports, .. } => ports,
        TrafficFilterSpec::IpAddress { ports, .. } => ports,
        TrafficFilterSpec::IpMatchingList { ports, .. } => ports,
        TrafficFilterSpec::Port { ports } => Some(ports),
    }
}

/// Folding shorthands with no full filter keeps every field that was given:
/// the networks (or the addresses) become the filter, never negated; the
/// ports, when given, are the filter's port restriction as plain values,
/// never negated and never dropped; and no shorthand at all gives no
/// filter.
pub proof fn law_shorthands_keep_every_given_field(
    prefix: Seq<char>,
    networks: Option<Vec<String>>,
    ips: Option<Vec<String>>,
    ports: Option<Vec<String>>,
    r: Result<Option<TrafficFilterSpec>, CliError>,
)
    requires
        side_outcome(prefix, None, networks, ips, ports, r),
        !(networks is Some && ips is Some),
    ensures
        networks is None && ips is None && ports is None ==> r == Ok::<
            Option<TrafficFilterSpec>,
            CliError,
        >(None),
        ports matches Some(items) ==> (r matches Ok(Some(f)) && filter_port_restriction(f) == Some(
            PortSpec::Values { items, match_opposite: false },
        )),
        ports is None ==> (r matches Ok(Some(f)) ==> filter_port_restriction(f) is None),
        networks matches Some(n) ==> (r matches Ok(Some(f)) && (f matches TrafficFilterSpec::Network {
            network_ids,
            match_opposite,
            ..
        } && network_ids == n && !match_opposite)),
        ips matches Some(a) ==> (r matches Ok(Some(f)) && (f matches TrafficFilterSpec::IpAddress {
            addresses,
            match_opposite,
            ..
        } && addresses == a && !match_opposite)),
        networks is None && ips is None && ports is Some ==> (r matches Ok(Some(f)) && f is Port),
{
}

/// A filter built from shorthands holds every one that was given: the
/// networks or addresses as the filter itself, the ports as its port
/// restriction, none of them negated; and no shorthand gives no filter.
pub open spec fn keeps_shorthands(
    f: Option<TrafficFilterSpec>,
    networks: Option<Vec<String>>,
    ips: Option<Vec<String>>,
    ports: Option<Vec<String>>,
) -> bool {
    &&& ports matches Some(items) ==> (f matches Some(x) && filter_port_restriction(x) == Some(
        PortSpec::Values { items, match_opposite: false },
    ))
    &&& networks matches Some(n) ==> (f matches Some(x) && (x matches TrafficFilterSpec::Network {
        network_ids,
        match_opposite,
        ..
    } && network_ids == n && !match_opposite))
    &&& ips matches Some(a) ==> (f matches Some(x) && (x matches TrafficFilterSpec::IpAddress {
        addresses,
        match_opposite,
        ..
    } && addresses == a && !match_opposite))
    &&& networks is None && ips is None && ports is None ==> f is None
}

/// Folding a policy's inline shorthands, when it succeeds and no full
/// filter was given, builds the source filter from the `--src-*` fields and
/// the destination filter from the `--dst-*` fields, each keeping every
/// shorthand of its own side.
pub proof fn law_inline_sides_keep_their_own_fields(old: PolicyFilterInput, new: PolicyFilterInput)
    requires
        PolicyFilterInput::inline_resolution(&old, &new, Ok::<(), CliError>(())),
        old.source_filter is None,
        old.destination_filter is None,
    ensures
        keeps_shorthands(new.source_filter, old.src_network, old.src_ip, old.src_port),
        keeps_shorthands(new.destination_filter, old.dst_network, old.dst_ip, old.dst_port),
{
}

/// Two filters select the same traffic apart from their port restriction:
/// the same kind, the same networks, addresses or list, the same negation.
pub open spec fn same_target(a: TrafficFilterSpec, b: TrafficFilterSpec) -> bool {
    match (a, b) {
        (
            TrafficFilterSpec::Network { network_ids: x, match_opposite: m, .. },
            TrafficFilterSpec::Network { network_ids: y, match_opposite: n, .. },
        ) => x == y && m == n,
        (
            TrafficFilterSpec::IpAddress { addresses: x, match_opposite: m, .. },
            TrafficFilterSpec::IpAddress { addresses: y, match_opposite: n, .. },
        ) => x == y && m == n,
        (
            TrafficFilterSpec::IpMatchingList { list_id: x, match_opposite: m, .. },
            TrafficFilterSpec::IpMatchingList { list_id: y, match_opposite: n, .. },
        ) => x == y && m == n,
        (TrafficFilterSpec::Port { .. }, TrafficFilterSpec::Port { .. }) => true,
        _ => false,
    }
}

/// Merging resolved groups into a filter keeps both parts and refuses only
/// real clashes. An address group clashes exactly with a filter that already
/// names addresses (anything but a bare port filter); a port group clashes
/// exactly with a filter that already restricts ports. Otherwise an address
/// group turns a port filter into a non-negated match on the group's list,
/// keeping its ports; a port group becomes the port restriction; and without
/// an address group the filter keeps what it selects.
pub proof fn law_merge_keeps_both_parts(
    filter: TrafficFilterSpec,
    address_group_id: Option<String>,
    port_group_spec: Option<PortSpec>,
)
    ensures
        ({
            let v = spec_merge_into_existing(filter, address_group_id, port_group_spec);
            let address_clash = address_group_id is Some && !(filter is Port);
            &&& (v is AddressConflict <==> address_clash)
            &&& (v is PortConflict <==> !address_clash && port_group_spec is Some
                && filter_port_restriction(filter) is Some)
            &&& (v matches MergeVerdict::Merged(f) ==> {
                &&& (port_group_spec matches Some(p) ==> filter_port_restriction(f) == Some(p))
                &&& (port_group_spec is None ==> filter_port_restriction(f) == filter_port_restriction(
                    filter,
                ))
                &&& (address_group_id matches Some(id) ==> (f matches TrafficFilterSpec::IpMatchingList {
                    list_id,
                    match_opposite,
                    ..
                } && list_id == id && !match_opposite))
                &&& (address_group_id is None ==> same_target(f, filter))
            })
        }),
{
}

/// A group reference resolves by name to the first group of that name: it
/// is found only when that group has an accepted kind and an external id;
/// it is "not found" exactly when no group has the name; otherwise the
/// first group of the name is of the wrong kind or has no external id.
/// Port references accept port groups only; address references accept
/// IPv4 and IPv6 address groups and nothing else.
pub proof fn law_group_lookup_takes_the_first_of_the_name(
    groups: Seq<FirewallGroup>,
    name: Seq<char>,
    accepts: spec_fn(FirewallGroupType) -> bool,
)
    ensures
        match spec_lookup_group(groups, name, accepts) {
            GroupLookup::Found(i) => 0 <= i < groups.len() && groups[i].name@ == name && accepts(
                groups[i].group_type,
            ) && groups[i].external_id is Some && forall|k: int|
                0 <= k < i ==> groups[k].name@ != name,
            GroupLookup::NotFound => forall|k: int| 0 <= k < groups.len() ==> groups[k].name@ != name,
            GroupLookup::WrongType(t) => exists|i: int|
                0 <= i < groups.len() && #[trigger] groups[i].name@ == name && groups[i].group_type == t
                    && !accepts(t) && forall|k: int| 0 <= k < i ==> groups[k].name@ != name,
            GroupLookup::NoExternalId => exists|i: int|
                0 <= i < groups.len() && #[trigger] groups[i].name@ == name && accepts(
                    groups[i].group_type,
                ) && groups[i].external_id is None && forall|k: int|
                    0 <= k < i ==> groups[k].name@ != name,
        },
        is_port_group(FirewallGroupType::PortGroup),
        !is_port_group(FirewallGroupType::AddressGroup),
        !is_port_group(FirewallGroupType::Ipv6AddressGroup),
        is_address_group(FirewallGroupType::AddressGroup),
        is_address_group(FirewallGroupType::Ipv6AddressGroup),
        !is_address_group(FirewallGroupType::PortGroup),
{
    lemma_find_group_is_first(groups, name);
}

} // verus!
