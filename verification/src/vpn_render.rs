//! Table rows and detail views of the VPN commands.
//!
//! A row is a set of cells; a cell is text in a paint role (identifiers,
//! names, addresses, numbers, states, muted text) or an on/off flag.  The
//! terminal painter turns roles into colours; these functions decide which
//! text goes where and in which role.

use vstd::prelude::*;
use crate::firewall::EntityId;
use crate::json::{spec_get, JsonValue, JsonView};
use crate::text::{fmt_u64, join, owned, spec_decimal, spec_join, views};

verus! {

/// How the painter shows a piece of text.
#[derive(Debug, Clone, Copy, PartialEq, Eq, Structural)]
pub enum PaintRole {
    Id,
    Name,
    Muted,
    Ip,
    Number,
    State,
    Health,
    Success,
    Error,
}

/// One table cell or detail value.
#[derive(Debug, Clone)]
pub enum Cell {
    Painted { text: String, role: PaintRole },
    /// An on/off flag, shown as the painter shows enabled state.
    Flag(bool),
}

/// What a cell shows.
pub enum CellView {
    Painted(Seq<char>, PaintRole),
    Flag(bool),
}

impl View for Cell {
    type V = CellView;

    open spec fn view(&self) -> CellView {
        match self {
            Cell::Painted { text, role } => CellView::Painted(text@, *role),
            Cell::Flag(b) => CellView::Flag(*b),
        }
    }
}

/// The placeholder for a missing value.
pub open spec fn dash() -> Seq<char> {
    "-"@
}

/// Text in a role.
pub fn painted(text: String, role: PaintRole) -> (r: Cell)
    ensures
        r@ == CellView::Painted(text@, role),
{
    Cell::Painted { text, role }
}

/// An optional text, or the placeholder, in one role.
pub open spec fn spec_or_dash(o: Option<String>) -> Seq<char> {
    match o {
        Some(s) => s@,
        None => dash(),
    }
}

/// An optional text in a role, or the placeholder in muted text.
pub open spec fn spec_role_or_muted_dash(o: Option<String>, role: PaintRole) -> CellView {
    match o {
        Some(s) => CellView::Painted(s@, role),
        None => CellView::Painted(dash(), PaintRole::Muted),
    }
}

/// An optional flag, or the placeholder in muted text.
pub open spec fn spec_flag_or_dash(o: Option<bool>) -> CellView {
    match o {
        Some(b) => CellView::Flag(b),
        None => CellView::Painted(dash(), PaintRole::Muted),
    }
}

/// An optional number spelled out, or the placeholder.
pub open spec fn spec_number_or_dash(o: Option<u64>) -> Seq<char> {
    match o {
        Some(n) => spec_decimal(n as nat),
        None => dash(),
    }
}

/// A list joined with commas, or the placeholder when it is empty.
pub open spec fn spec_list_or_dash(values: Seq<String>) -> Seq<char> {
    if values.len() == 0 {
        dash()
    } else {
        spec_join(views(values), ", "@)
    }
}

/// An optional text, or the placeholder; see [`spec_or_dash`].
pub fn text_or_dash(o: &Option<String>) -> (r: String)
    ensures
        r@ == spec_or_dash(*o),
{
    match o {
        Some(s) => s.clone(),
        None => owned("-"),
    }
}

/// A cell for an optional text; see [`spec_role_or_muted_dash`].
pub fn role_or_muted_dash(o: &Option<String>, role: PaintRole) -> (r: Cell)
    ensures
        r@ == spec_role_or_muted_dash(*o, role),
{
    match o {
        Some(s) => painted(s.clone(), role),
        None => painted(owned("-"), PaintRole::Muted),
    }
}

/// A cell for an optional flag; see [`spec_flag_or_dash`].
pub fn flag_or_dash(o: Option<bool>) -> (r: Cell)
    ensures
        r@ == spec_flag_or_dash(o),
{
    match o {
        Some(b) => Cell::Flag(b),
        None => painted(owned("-"), PaintRole::Muted),
    }
}

/// An optional number, or the placeholder; see [`spec_number_or_dash`].
pub fn display_optional(o: Option<u64>) -> (r: String)
    ensures
        r@ == spec_number_or_dash(o),
{
    match o {
        Some(n) => fmt_u64(n),
        None => owned("-"),
    }
}

/// A list joined with commas, or the placeholder; see [`spec_list_or_dash`].
pub fn display_list(values: &Vec<String>) -> (r: String)
    ensures
        r@ == spec_list_or_dash(values@),
{
    if values.len() == 0 {
        owned("-")
    } else {
        join(values, ", ")
    }
}

// ── Text order ────────────────────────────────────────────────────────

/// Strict lexicographic order by character code, the order of `str`.
pub open spec fn spec_text_lt(a: Seq<char>, b: Seq<char>) -> bool
    decreases a.len(),
{
    if a.len() == 0 {
        b.len() > 0
    } else if b.len() == 0 {
        false
    } else if a[0] < b[0] {
        true
    } else if a[0] == b[0] {
        spec_text_lt(a.drop_first(), b.drop_first())
    } else {
        false
    }
}

/// Texts in order, equal ones allowed.
pub open spec fn spec_text_le(a: Seq<char>, b: Seq<char>) -> bool {
    a == b || spec_text_lt(a, b)
}

proof fn lemma_text_lt_irreflexive(a: Seq<char>)
    ensures
        !spec_text_lt(a, a),
    decreases a.len(),
{
    if a.len() > 0 {
        lemma_text_lt_irreflexive(a.drop_first());
    }
}

proof fn lemma_text_lt_total(a: Seq<char>, b: Seq<char>)
    ensures
        a == b || spec_text_lt(a, b) || spec_text_lt(b, a),
    decreases a.len(),
{
    if a.len() > 0 && b.len() > 0 && a[0] == b[0] {
        lemma_text_lt_total(a.drop_first(), b.drop_first());
        if a.drop_first() == b.drop_first() {
            assert(a =~= seq![a[0]] + a.drop_first());
            assert(b =~= seq![b[0]] + b.drop_first());
        }
    } else if a.len() == 0 && b.len() == 0 {
        assert(a =~= b);
    }
}

proof fn lemma_text_lt_transitive(a: Seq<char>, b: Seq<char>, c: Seq<char>)
    requires
        spec_text_lt(a, b),
        spec_text_lt(b, c),
    ensures
        spec_text_lt(a, c),
    decreases a.len(),
{
    if a.len() > 0 && b.len() > 0 && c.len() > 0 && a[0] == b[0] && b[0] == c[0] {
        lemma_text_lt_transitive(a.drop_first(), b.drop_first(), c.drop_first());
    }
}

/// Whether `a` sorts before `b`; see [`spec_text_lt`].
pub fn text_lt(a: &str, b: &str) -> (r: bool)
    ensures
        r == spec_text_lt(a@, b@),
{
    let x = crate::text::chars_of(a);
    let y = crate::text::chars_of(b);
    assert(a@.skip(0) =~= a@);
    assert(b@.skip(0) =~= b@);
    assert(x@.take(0) =~= y@.take(0));
    let mut i: usize = 0;
    while i < x.len() && i < y.len()
        invariant
            i <= x@.len(),
            i <= y@.len(),
            x@ == a@,
            y@ == b@,
            x@.take(i as int) == y@.take(i as int),
            spec_text_lt(a@, b@) == spec_text_lt(a@.skip(i as int), b@.skip(i as int)),
        decreases x@.len() - i,
    {
        let cx = x[i];
        let cy = y[i];
        proof {
            assert(a@.skip(i as int)[0] == cx);
            assert(b@.skip(i as int)[0] == cy);
        }
        if cx < cy {
            return true;
        }
        if cx != cy {
            return false;
        }
        proof {
            assert(a@.skip(i as int).drop_first() =~= a@.skip(i + 1));
            assert(b@.skip(i as int).drop_first() =~= b@.skip(i + 1));
            assert(x@.take(i + 1) =~= x@.take(i as int).push(cx));
            assert(y@.take(i + 1) =~= y@.take(i as int).push(cy));
        }
        i = i + 1;
    }
    proof {
        assert(a@.skip(i as int).len() == 0 || b@.skip(i as int).len() == 0);
    }
    i == x.len() && i < y.len()
}

/// The views of a list of texts.
pub open spec fn text_views(v: Seq<String>) -> Seq<Seq<char>> {
    v.map_values(|s: String| s@)
}

/// `v` in text order.
pub open spec fn spec_text_sorted(v: Seq<Seq<char>>) -> bool {
    forall|i: int, j: int| 0 <= i < j < v.len() ==> spec_text_le(#[trigger] v[i], #[trigger] v[j])
}

/// Sorts texts into text order, keeping every one.
pub fn sort_texts(v: Vec<String>) -> (r: Vec<String>)
    ensures
        spec_text_sorted(text_views(r@)),
        text_views(r@).to_multiset() == text_views(v@).to_multiset(),
{
    broadcast use vstd::seq_lib::to_multiset_insert;
    broadcast use vstd::seq_lib::to_multiset_build;

    let mut out: Vec<String> = Vec::new();
    assert(text_views(out@) =~= text_views(v@.take(0)));
    let mut i: usize = 0;
    while i < v.len()
        invariant
            i <= v@.len(),
            spec_text_sorted(text_views(out@)),
            text_views(out@).to_multiset() == text_views(v@.take(i as int)).to_multiset(),
        decreases v@.len() - i,
    {
        let item = v[i].clone();
        let mut pos: usize = 0;
        while pos < out.len() && !text_lt(item.as_str(), out[pos].as_str())
            invariant
                pos <= out@.len(),
                forall|k: int| 0 <= k < pos ==> !spec_text_lt(item@, #[trigger] out@[k]@),
            decreases out@.len() - pos,
        {
            pos = pos + 1;
        }
        let ghost before = text_views(out@);
        out.insert(pos, item);
        proof {
            let after = text_views(out@);
            assert(after =~= before.insert(pos as int, item@));
            assert forall|p: int, q: int| 0 <= p < q < after.len() implies spec_text_le(#[trigger] after[p], #[trigger] after[q]) by {
                if q < pos {
                    assert(after[p] == before[p] && after[q] == before[q]);
                } else if q == pos {
                    assert(after[p] == before[p]);
                    lemma_text_lt_total(item@, before[p]);
                } else if p == pos {
                    assert(after[q] == before[q - 1]);
                    assert(spec_text_lt(item@, before[pos as int]));
                    if q - 1 > pos {
                        assert(spec_text_le(before[pos as int], before[q - 1]));
                        if before[pos as int] != before[q - 1] {
                            lemma_text_lt_transitive(item@, before[pos as int], before[q - 1]);
                        }
                    }
                } else if p < pos {
                    assert(after[p] == before[p] && after[q] == before[q - 1]);
                } else {
                    assert(after[p] == before[p - 1] && after[q] == before[q - 1]);
                }
            }
            assert(text_views(v@.take(i + 1)) =~= text_views(v@.take(i as int)).push(v@[i as int]@));
            assert(item@ == v@[i as int]@);
            vstd::seq_lib::to_multiset_insert(before, pos as int, item@);
            vstd::seq_lib::to_multiset_build(text_views(v@.take(i as int)), v@[i as int]@);
            assert(after.to_multiset() == before.to_multiset().insert(item@));
        }
        i = i + 1;
    }
    proof {
        assert(v@.take(v@.len() as int) =~= v@);
    }
    out
}

// ── Models ────────────────────────────────────────────────────────────

fn widen16(o: Option<u16>) -> (r: Option<u64>)
    ensures
        r == spec_widen16(o),
{
    match o {
        Some(v) => Some(v as u64),
        None => None,
    }
}

fn widen32(o: Option<u32>) -> (r: Option<u64>)
    ensures
        r == spec_widen32(o),
{
    match o {
        Some(v) => Some(v as u64),
        None => None,
    }
}

pub open spec fn spec_widen16(o: Option<u16>) -> Option<u64> {
    match o {
        Some(v) => Some(v as u64),
        None => None,
    }
}

pub open spec fn spec_widen32(o: Option<u32>) -> Option<u64> {
    match o {
        Some(v) => Some(v as u64),
        None => None,
    }
}

/// A VPN server of the integration API.  `extra_json` holds the server's
/// remaining raw fields, pretty-printed, when there are any.
#[derive(Debug, Clone)]
pub struct VpnServer {
    pub id: EntityId,
    pub name: Option<String>,
    pub server_type: String,
    pub subnet: Option<String>,
    pub port: Option<u16>,
    pub protocol: Option<String>,
    pub enabled: Option<bool>,
    pub wan_ip: Option<String>,
    pub connected_clients: Option<u32>,
    pub extra_json: Option<String>,
}

/// A site-to-site VPN tunnel of the integration API.
#[derive(Debug, Clone)]
pub struct VpnTunnel {
    pub id: EntityId,
    pub name: Option<String>,
    pub tunnel_type: String,
    pub peer_address: Option<String>,
    pub ike_version: Option<String>,
    pub enabled: Option<bool>,
    pub local_subnets: Vec<String>,
    pub remote_subnets: Vec<String>,
    pub has_psk: bool,
    pub extra_json: Option<String>,
}

/// An IPsec security association.
#[derive(Debug, Clone)]
pub struct IpsecSa {
    pub name: Option<String>,
    pub remote_ip: Option<String>,
    pub local_ip: Option<String>,
    pub state: Option<String>,
    pub tx_bytes: Option<u64>,
    pub rx_bytes: Option<u64>,
    pub uptime: Option<u64>,
    pub ike_version: Option<String>,
}

/// Health of one subsystem.  `latency` is the measured latency already
/// written with one decimal; `extra_json` the raw record, pretty-printed,
/// unless it was null.
#[derive(Debug, Clone)]
pub struct HealthSummary {
    pub subsystem: String,
    pub status: String,
    pub num_adopted: Option<u32>,
    pub num_sta: Option<u32>,
    pub tx_bytes_r: Option<u64>,
    pub rx_bytes_r: Option<u64>,
    pub latency: Option<String>,
    pub wan_ip: Option<String>,
    pub gateways: Option<Vec<String>>,
    pub extra_json: Option<String>,
}

/// A site-to-site VPN of the session API.
#[derive(Debug, Clone)]
pub struct SiteToSiteVpn {
    pub id: EntityId,
    pub name: String,
    pub vpn_type: String,
    pub remote_host: Option<String>,
    pub remote_vpn_subnets: Vec<String>,
    pub enabled: bool,
}

/// A remote-access VPN server.
#[derive(Debug, Clone)]
pub struct RemoteAccessVpnServer {
    pub id: EntityId,
    pub name: String,
    pub vpn_type: String,
    pub interface: Option<String>,
    pub local_wan_ip: Option<String>,
    pub local_port: Option<u16>,
    pub enabled: bool,
}

/// A VPN client profile.
#[derive(Debug, Clone)]
pub struct VpnClientProfile {
    pub id: EntityId,
    pub name: String,
    pub vpn_type: String,
    pub server_address: Option<String>,
    pub server_port: Option<u16>,
    pub local_address: Option<String>,
    pub enabled: bool,
}

/// A live VPN client connection.
#[derive(Debug, Clone)]
pub struct VpnClientConnection {
    pub id: EntityId,
    pub name: Option<String>,
    pub connection_type: Option<String>,
    pub status: Option<String>,
    pub local_address: Option<String>,
    pub remote_address: Option<String>,
}

/// A WireGuard peer.
#[derive(Debug, Clone)]
pub struct WireGuardPeer {
    pub id: EntityId,
    pub server_id: Option<EntityId>,
    pub name: String,
    pub interface_ip: Option<String>,
    pub interface_ipv6: Option<String>,
    pub allowed_ips: Vec<String>,
    pub has_preshared_key: bool,
}

/// A Magic site-to-site VPN configuration.
#[derive(Debug, Clone)]
pub struct MagicSiteToSiteVpnConfig {
    pub id: EntityId,
    pub name: Option<String>,
    pub status: Option<String>,
    pub enabled: Option<bool>,
    pub local_site_name: Option<String>,
    pub remote_site_name: Option<String>,
}

// ── Rows ──────────────────────────────────────────────────────────────

/// A row of the VPN server table.
pub struct VpnServerRow {
    pub id: Cell,
    pub name: Cell,
    pub server_type: Cell,
    pub subnet: Cell,
    pub port: Cell,
    pub protocol: Cell,
    pub enabled: Cell,
}

pub open spec fn spec_vpn_server_row(r: VpnServerRow, s: VpnServer) -> bool {
    &&& r.id@ == CellView::Painted(s.id.value@, PaintRole::Id)
    &&& r.name@ == CellView::Painted(spec_or_dash(s.name), PaintRole::Name)
    &&& r.server_type@ == CellView::Painted(s.server_type@, PaintRole::Muted)
    &&& r.subnet@ == CellView::Painted(spec_or_dash(s.subnet), PaintRole::Ip)
    &&& r.port@ == CellView::Painted(spec_number_or_dash(spec_widen16(s.port)), PaintRole::Number)
    &&& r.protocol@ == CellView::Painted(spec_or_dash(s.protocol), PaintRole::Muted)
    &&& r.enabled@ == spec_flag_or_dash(s.enabled)
}

/// The table row of a VPN server.
pub fn vpn_server_row(server: &VpnServer) -> (r: VpnServerRow)
    ensures
        spec_vpn_server_row(r, *server),
{
    VpnServerRow {
        id: painted(server.id.value.clone(), PaintRole::Id),
        name: painted(text_or_dash(&server.name), PaintRole::Name),
        server_type: painted(server.server_type.clone(), PaintRole::Muted),
        subnet: painted(text_or_dash(&server.subnet), PaintRole::Ip),
        port: painted(display_optional(widen16(server.port)), PaintRole::Number),
        protocol: painted(text_or_dash(&server.protocol), PaintRole::Muted),
        enabled: flag_or_dash(server.enabled),
    }
}

/// A row of the VPN tunnel table.
pub struct VpnTunnelRow {
    pub id: Cell,
    pub name: Cell,
    pub tunnel_type: Cell,
    pub peer: Cell,
    pub ike: Cell,
    pub enabled: Cell,
}

pub open spec fn spec_vpn_tunnel_row(r: VpnTunnelRow, t: VpnTunnel) -> bool {
    &&& r.id@ == CellView::Painted(t.id.value@, PaintRole::Id)
    &&& r.name@ == CellView::Painted(spec_or_dash(t.name), PaintRole::Name)
    &&& r.tunnel_type@ == CellView::Painted(t.tunnel_type@, PaintRole::Muted)
    &&& r.peer@ == CellView::Painted(spec_or_dash(t.peer_address), PaintRole::Ip)
    &&& r.ike@ == CellView::Painted(spec_or_dash(t.ike_version), PaintRole::Muted)
    &&& r.enabled@ == spec_flag_or_dash(t.enabled)
}

/// The table row of a VPN tunnel.
pub fn vpn_tunnel_row(tunnel: &VpnTunnel) -> (r: VpnTunnelRow)
    ensures
        spec_vpn_tunnel_row(r, *tunnel),
{
    VpnTunnelRow {
        id: painted(tunnel.id.value.clone(), PaintRole::Id),
        name: painted(text_or_dash(&tunnel.name), PaintRole::Name),
        tunnel_type: painted(tunnel.tunnel_type.clone(), PaintRole::Muted),
        peer: painted(text_or_dash(&tunnel.peer_address), PaintRole::Ip),
        ike: painted(text_or_dash(&tunnel.ike_version), PaintRole::Muted),
        enabled: flag_or_dash(tunnel.enabled),
    }
}

/// A row of the IPsec security association table.
pub struct IpsecSaRow {
    pub name: Cell,
    pub remote_ip: Cell,
    pub state: Cell,
    pub tx: Cell,
    pub rx: Cell,
    pub uptime: Cell,
    pub ike: Cell,
}

/// An uptime in seconds with its unit, or the placeholder.
pub open spec fn spec_uptime_text(o: Option<u64>) -> Seq<char> {
    match o {
        Some(n) => spec_decimal(n as nat) + "s"@,
        None => dash(),
    }
}

pub open spec fn spec_ipsec_sa_row(r: IpsecSaRow, sa: IpsecSa) -> bool {
    &&& r.name@ == CellView::Painted(spec_or_dash(sa.name), PaintRole::Name)
    &&& r.remote_ip@ == CellView::Painted(spec_or_dash(sa.remote_ip), PaintRole::Ip)
    &&& r.state@ == CellView::Painted(spec_or_dash(sa.state), PaintRole::State)
    &&& r.tx@ == CellView::Painted(spec_number_or_dash(sa.tx_bytes), PaintRole::Number)
    &&& r.rx@ == CellView::Painted(spec_number_or_dash(sa.rx_bytes), PaintRole::Number)
    &&& r.uptime@ == CellView::Painted(spec_uptime_text(sa.uptime), PaintRole::Muted)
    &&& r.ike@ == CellView::Painted(spec_or_dash(sa.ike_version), PaintRole::Muted)
}

fn uptime_text(o: Option<u64>) -> (r: String)
    ensures
        r@ == spec_uptime_text(o),
{
    match o {
        Some(n) => {
            let mut t = fmt_u64(n);
            t.append("s");
            t
        },
        None => owned("-"),
    }
}

/// The table row of an IPsec security association.
pub fn ipsec_sa_row(sa: &IpsecSa) -> (r: IpsecSaRow)
    ensures
        spec_ipsec_sa_row(r, *sa),
        r.tx@ == CellView::Painted(counter_text(sa.tx_bytes), PaintRole::Number),
        r.rx@ == CellView::Painted(counter_text(sa.rx_bytes), PaintRole::Number),
{
    IpsecSaRow {
        name: painted(text_or_dash(&sa.name), PaintRole::Name),
        remote_ip: painted(text_or_dash(&sa.remote_ip), PaintRole::Ip),
        state: painted(text_or_dash(&sa.state), PaintRole::State),
        tx: painted(display_optional(sa.tx_bytes), PaintRole::Number),
        rx: painted(display_optional(sa.rx_bytes), PaintRole::Number),
        uptime: painted(uptime_text(sa.uptime), PaintRole::Muted),
        ike: painted(text_or_dash(&sa.ike_version), PaintRole::Muted),
    }
}

/// What names an IPsec association: its name, else its remote address,
/// else its local address, else nothing.
pub open spec fn spec_ipsec_sa_identity(sa: IpsecSa) -> Seq<char> {
    match sa.name {
        Some(n) => n@,
        None => match sa.remote_ip {
            Some(r) => r@,
            None => match sa.local_ip {
                Some(l) => l@,
                None => Seq::empty(),
            },
        },
    }
}

/// The identity of an IPsec association; see [`spec_ipsec_sa_identity`].
pub fn ipsec_sa_identity(sa: &IpsecSa) -> (r: String)
    ensures
        r@ == spec_ipsec_sa_identity(*sa),
{
    match &sa.name {
        Some(n) => n.clone(),
        None => match &sa.remote_ip {
            Some(r) => r.clone(),
            None => match &sa.local_ip {
                Some(l) => l.clone(),
                None => String::new(),
            },
        },
    }
}

/// A list cell: joined with commas in muted text, or the muted placeholder.
pub open spec fn spec_muted_list(values: Seq<String>) -> CellView {
    CellView::Painted(spec_list_or_dash(values), PaintRole::Muted)
}

/// A row of the site-to-site VPN table.
pub struct SiteToSiteVpnRow {
    pub id: Cell,
    pub name: Cell,
    pub vpn_type: Cell,
    pub remote_host: Cell,
    pub remote_vpn_subnets: Cell,
    pub enabled: Cell,
}

pub open spec fn spec_site_to_site_vpn_row(r: SiteToSiteVpnRow, v: SiteToSiteVpn) -> bool {
    &&& r.id@ == CellView::Painted(v.id.value@, PaintRole::Id)
    &&& r.name@ == CellView::Painted(v.name@, PaintRole::Name)
    &&& r.vpn_type@ == CellView::Painted(v.vpn_type@, PaintRole::Muted)
    &&& r.remote_host@ == spec_role_or_muted_dash(v.remote_host, PaintRole::Muted)
    &&& r.remote_vpn_subnets@ == spec_muted_list(v.remote_vpn_subnets@)
    &&& r.enabled@ == CellView::Flag(v.enabled)
}

/// The table row of a site-to-site VPN.
pub fn site_to_site_vpn_row(vpn: &SiteToSiteVpn) -> (r: SiteToSiteVpnRow)
    ensures
        spec_site_to_site_vpn_row(r, *vpn),
{
    SiteToSiteVpnRow {
        id: painted(vpn.id.value.clone(), PaintRole::Id),
        name: painted(vpn.name.clone(), PaintRole::Name),
        vpn_type: painted(vpn.vpn_type.clone(), PaintRole::Muted),
        remote_host: role_or_muted_dash(&vpn.remote_host, PaintRole::Muted),
        remote_vpn_subnets: painted(display_list(&vpn.remote_vpn_subnets), PaintRole::Muted),
        enabled: Cell::Flag(vpn.enabled),
    }
}

/// A row of the remote-access VPN server table.
pub struct RemoteAccessVpnServerRow {
    pub id: Cell,
    pub name: Cell,
    pub vpn_type: Cell,
    pub interface: Cell,
    pub local_wan_ip: Cell,
    pub local_port: Cell,
    pub enabled: Cell,
}

/// An optional number in muted text, or the muted placeholder.
pub open spec fn spec_muted_number(o: Option<u64>) -> CellView {
    CellView::Painted(spec_number_or_dash(o), PaintRole::Muted)
}

pub open spec fn spec_remote_access_vpn_server_row(r: RemoteAccessVpnServerRow, s: RemoteAccessVpnServer) -> bool {
    &&& r.id@ == CellView::Painted(s.id.value@, PaintRole::Id)
    &&& r.name@ == CellView::Painted(s.name@, PaintRole::Name)
    &&& r.vpn_type@ == CellView::Painted(s.vpn_type@, PaintRole::Muted)
    &&& r.interface@ == spec_role_or_muted_dash(s.interface, PaintRole::Muted)
    &&& r.local_wan_ip@ == spec_role_or_muted_dash(s.local_wan_ip, PaintRole::Muted)
    &&& r.local_port@ == spec_muted_number(spec_widen16(s.local_port))
    &&& r.enabled@ == CellView::Flag(s.enabled)
}

/// The table row of a remote-access VPN server.
pub fn remote_access_vpn_server_row(server: &RemoteAccessVpnServer) -> (r: RemoteAccessVpnServerRow)
    ensures
        spec_remote_access_vpn_server_row(r, *server),
{
    RemoteAccessVpnServerRow {
        id: painted(server.id.value.clone(), PaintRole::Id),
        name: painted(server.name.clone(), PaintRole::Name),
        vpn_type: painted(server.vpn_type.clone(), PaintRole::Muted),
        interface: role_or_muted_dash(&server.interface, PaintRole::Muted),
        local_wan_ip: role_or_muted_dash(&server.local_wan_ip, PaintRole::Muted),
        local_port: painted(display_optional(widen16(server.local_port)), PaintRole::Muted),
        enabled: Cell::Flag(server.enabled),
    }
}

/// A row of the OpenVPN port table.
pub struct OpenVpnPortRow {
    pub port: Cell,
}

/// The table row of an OpenVPN port.
pub fn openvpn_port_row(port: u16) -> (r: OpenVpnPortRow)
    ensures
        r.port@ == CellView::Painted(spec_decimal(port as nat), PaintRole::Number),
{
    OpenVpnPortRow { port: painted(fmt_u64(port as u64), PaintRole::Number) }
}

/// A row of the VPN client profile table.
pub struct VpnClientProfileRow {
    pub id: Cell,
    pub name: Cell,
    pub vpn_type: Cell,
    pub server_address: Cell,
    pub server_port: Cell,
    pub local_address: Cell,
    pub enabled: Cell,
}

pub open spec fn spec_vpn_client_profile_row(r: VpnClientProfileRow, c: VpnClientProfile) -> bool {
    &&& r.id@ == CellView::Painted(c.id.value@, PaintRole::Id)
    &&& r.name@ == CellView::Painted(c.name@, PaintRole::Name)
    &&& r.vpn_type@ == CellView::Painted(c.vpn_type@, PaintRole::Muted)
    &&& r.server_address@ == spec_role_or_muted_dash(c.server_address, PaintRole::Ip)
    &&& r.server_port@ == spec_muted_number(spec_widen16(c.server_port))
    &&& r.local_address@ == spec_role_or_muted_dash(c.local_address, PaintRole::Ip)
    &&& r.enabled@ == CellView::Flag(c.enabled)
}

/// The table row of a VPN client profile.
pub fn vpn_client_profile_row(client: &VpnClientProfile) -> (r: VpnClientProfileRow)
    ensures
        spec_vpn_client_profile_row(r, *client),
{
    VpnClientProfileRow {
        id: painted(client.id.value.clone(), PaintRole::Id),
        name: painted(client.name.clone(), PaintRole::Name),
        vpn_type: painted(client.vpn_type.clone(), PaintRole::Muted),
        server_address: role_or_muted_dash(&client.server_address, PaintRole::Ip),
        server_port: painted(display_optional(widen16(client.server_port)), PaintRole::Muted),
        local_address: role_or_muted_dash(&client.local_address, PaintRole::Ip),
        enabled: Cell::Flag(client.enabled),
    }
}

/// A row of the VPN client connection table.
pub struct VpnClientConnectionRow {
    pub id: Cell,
    pub name: Cell,
    pub connection_type: Cell,
    pub status: Cell,
    pub local_address: Cell,
    pub remote_address: Cell,
}

pub open spec fn spec_vpn_client_connection_row(r: VpnClientConnectionRow, c: VpnClientConnection) -> bool {
    &&& r.id@ == CellView::Painted(c.id.value@, PaintRole::Id)
    &&& r.name@ == spec_role_or_muted_dash(c.name, PaintRole::Name)
    &&& r.connection_type@ == spec_role_or_muted_dash(c.connection_type, PaintRole::Muted)
    &&& r.status@ == spec_role_or_muted_dash(c.status, PaintRole::State)
    &&& r.local_address@ == spec_role_or_muted_dash(c.local_address, PaintRole::Ip)
    &&& r.remote_address@ == spec_role_or_muted_dash(c.remote_address, PaintRole::Ip)
}

/// The table row of a VPN client connection.
pub fn vpn_client_connection_row(connection: &VpnClientConnection) -> (r: VpnClientConnectionRow)
    ensures
        spec_vpn_client_connection_row(r, *connection),
{
    VpnClientConnectionRow {
        id: painted(connection.id.value.clone(), PaintRole::Id),
        name: role_or_muted_dash(&connection.name, PaintRole::Name),
        connection_type: role_or_muted_dash(&connection.connection_type, PaintRole::Muted),
        status: role_or_muted_dash(&connection.status, PaintRole::State),
        local_address: role_or_muted_dash(&connection.local_address, PaintRole::Ip),
        remote_address: role_or_muted_dash(&connection.remote_address, PaintRole::Ip),
    }
}

/// A row of the WireGuard peer table.
pub struct WireGuardPeerRow {
    pub id: Cell,
    pub server_id: Cell,
    pub name: Cell,
    pub interface_ip: Cell,
    pub interface_ipv6: Cell,
    pub allowed_ips: Cell,
    pub has_preshared_key: Cell,
}

pub open spec fn spec_wireguard_peer_row(r: WireGuardPeerRow, p: WireGuardPeer) -> bool {
    &&& r.id@ == CellView::Painted(p.id.value@, PaintRole::Id)
    &&& r.server_id@ == match p.server_id {
        Some(s) => CellView::Painted(s.value@, PaintRole::Id),
        None => CellView::Painted(dash(), PaintRole::Muted),
    }
    &&& r.name@ == CellView::Painted(p.name@, PaintRole::Name)
    &&& r.interface_ip@ == spec_role_or_muted_dash(p.interface_ip, PaintRole::Ip)
    &&& r.interface_ipv6@ == spec_role_or_muted_dash(p.interface_ipv6, PaintRole::Ip)
    &&& r.allowed_ips@ == spec_muted_list(p.allowed_ips@)
    &&& r.has_preshared_key@ == CellView::Flag(p.has_preshared_key)
}

/// The table row of a WireGuard peer.
pub fn wireguard_peer_row(peer: &WireGuardPeer) -> (r: WireGuardPeerRow)
    ensures
        spec_wireguard_peer_row(r, *peer),
{
    WireGuardPeerRow {
        id: painted(peer.id.value.clone(), PaintRole::Id),
        server_id: match &peer.server_id {
            Some(s) => painted(s.value.clone(), PaintRole::Id),
            None => painted(owned("-"), PaintRole::Muted),
        },
        name: painted(peer.name.clone(), PaintRole::Name),
        interface_ip: role_or_muted_dash(&peer.interface_ip, PaintRole::Ip),
        interface_ipv6: role_or_muted_dash(&peer.interface_ipv6, PaintRole::Ip),
        allowed_ips: painted(display_list(&peer.allowed_ips), PaintRole::Muted),
        has_preshared_key: Cell::Flag(peer.has_preshared_key),
    }
}

/// A row of the Magic site-to-site VPN table.
pub struct MagicSiteToSiteVpnConfigRow {
    pub id: Cell,
    pub name: Cell,
    pub status: Cell,
    pub enabled: Cell,
    pub local_site_name: Cell,
    pub remote_site_name: Cell,
}

/// A configuration's name, else "local <-> remote" when both sites are
/// named, else nothing.
pub open spec fn spec_magic_name(c: MagicSiteToSiteVpnConfig) -> Option<Seq<char>> {
    match c.name {
        Some(n) => Some(n@),
        None => match (c.local_site_name, c.remote_site_name) {
            (Some(l), Some(r)) => Some(l@ + " <-> "@ + r@),
            _ => None,
        },
    }
}

fn magic_name(c: &MagicSiteToSiteVpnConfig) -> (r: Option<String>)
    ensures
        match r {
            Some(s) => spec_magic_name(*c) == Some(s@),
            None => spec_magic_name(*c) is None,
        },
{
    match &c.name {
        Some(n) => Some(n.clone()),
        None => match (&c.local_site_name, &c.remote_site_name) {
            (Some(l), Some(r)) => Some(crate::text::concat3(l.as_str(), " <-> ", r.as_str())),
            _ => None,
        },
    }
}

pub open spec fn spec_magic_site_to_site_vpn_config_row(r: MagicSiteToSiteVpnConfigRow, c: MagicSiteToSiteVpnConfig) -> bool {
    &&& r.id@ == CellView::Painted(c.id.value@, PaintRole::Id)
    &&& r.name@ == match spec_magic_name(c) {
        Some(n) => CellView::Painted(n, PaintRole::Name),
        None => CellView::Painted(dash(), PaintRole::Muted),
    }
    &&& r.status@ == spec_role_or_muted_dash(c.status, PaintRole::State)
    &&& r.enabled@ == spec_flag_or_dash(c.enabled)
    &&& r.local_site_name@ == spec_role_or_muted_dash(c.local_site_name, PaintRole::Name)
    &&& r.remote_site_name@ == spec_role_or_muted_dash(c.remote_site_name, PaintRole::Name)
}

/// The table row of a Magic site-to-site VPN configuration.
pub fn magic_site_to_site_vpn_config_row(config: &MagicSiteToSiteVpnConfig) -> (r: MagicSiteToSiteVpnConfigRow)
    ensures
        spec_magic_site_to_site_vpn_config_row(r, *config),
{
    let name = magic_name(config);
    MagicSiteToSiteVpnConfigRow {
        id: painted(config.id.value.clone(), PaintRole::Id),
        name: match name {
            Some(n) => painted(n, PaintRole::Name),
            None => painted(owned("-"), PaintRole::Muted),
        },
        status: role_or_muted_dash(&config.status, PaintRole::State),
        enabled: flag_or_dash(config.enabled),
        local_site_name: role_or_muted_dash(&config.local_site_name, PaintRole::Name),
        remote_site_name: role_or_muted_dash(&config.remote_site_name, PaintRole::Name),
    }
}

/// A row of the WireGuard peer subnet table.
pub struct WireGuardPeerSubnetRow {
    pub subnet: Cell,
}

/// The table row of a WireGuard peer subnet.
pub fn wireguard_peer_subnet_row(subnet: &str) -> (r: WireGuardPeerSubnetRow)
    ensures
        r.subnet@ == CellView::Painted(subnet@, PaintRole::Ip),
{
    WireGuardPeerSubnetRow { subnet: painted(owned(subnet), PaintRole::Ip) }
}

// ── Details ───────────────────────────────────────────────────────────

/// One line of a detail view: a labelled value, or plain text.
pub enum DetailLine {
    Field { label: String, value: Cell },
    Plain(String),
}

/// What a detail line shows.
pub enum DetailLineView {
    Field(Seq<char>, CellView),
    Plain(Seq<char>),
}

impl View for DetailLine {
    type V = DetailLineView;

    open spec fn view(&self) -> DetailLineView {
        match self {
            DetailLine::Field { label, value } => DetailLineView::Field(label@, value@),
            DetailLine::Plain(t) => DetailLineView::Plain(t@),
        }
    }
}

/// The views of a detail view's lines.
pub open spec fn detail_views(lines: Seq<DetailLine>) -> Seq<DetailLineView> {
    lines.map_values(|l: DetailLine| l@)
}

/// The raw-record section closing a detail view: a blank line, a heading
/// and the record, when there is one.
pub open spec fn spec_raw_section(extra: Option<String>) -> Seq<DetailLineView> {
    match extra {
        Some(t) => seq![DetailLineView::Plain(Seq::empty()), DetailLineView::Plain("Raw:"@), DetailLineView::Plain(t@)],
        None => seq![],
    }
}

fn push_field(lines: &mut Vec<DetailLine>, label: &str, value: Cell)
    ensures
        detail_views(final(lines)@) == detail_views(old(lines)@).push(DetailLineView::Field(label@, value@)),
{
    let ghost before = detail_views(lines@);
    let line = DetailLine::Field { label: owned(label), value };
    lines.push(line);
    assert(detail_views(lines@) =~= before.push(line@));
}

fn append_extra(lines: &mut Vec<DetailLine>, extra: &Option<String>)
    ensures
        detail_views(final(lines)@) == detail_views(old(lines)@) + spec_raw_section(*extra),
{
    let ghost before = detail_views(lines@);
    match extra {
        Some(t) => {
            lines.push(DetailLine::Plain(String::new()));
            lines.push(DetailLine::Plain(owned("Raw:")));
            lines.push(DetailLine::Plain(t.clone()));
            assert(detail_views(lines@) =~= before + spec_raw_section(*extra));
        },
        None => {
            assert(detail_views(lines@) =~= before + spec_raw_section(*extra));
        },
    }
}

/// The detail view of a VPN server.
pub open spec fn spec_server_detail(s: VpnServer) -> Seq<DetailLineView> {
    seq![
        DetailLineView::Field("ID:                "@, CellView::Painted(s.id.value@, PaintRole::Id)),
        DetailLineView::Field("Name:              "@, CellView::Painted(spec_or_dash(s.name), PaintRole::Name)),
        DetailLineView::Field("Type:              "@, CellView::Painted(s.server_type@, PaintRole::Muted)),
        DetailLineView::Field("Enabled:           "@, spec_flag_or_dash(s.enabled)),
        DetailLineView::Field("Subnet:            "@, CellView::Painted(spec_or_dash(s.subnet), PaintRole::Ip)),
        DetailLineView::Field("Port:              "@, CellView::Painted(spec_number_or_dash(spec_widen16(s.port)), PaintRole::Number)),
        DetailLineView::Field("WAN IP:            "@, CellView::Painted(spec_or_dash(s.wan_ip), PaintRole::Ip)),
        DetailLineView::Field("Connected Clients: "@, CellView::Painted(spec_number_or_dash(spec_widen32(s.connected_clients)), PaintRole::Number)),
        DetailLineView::Field("Protocol:          "@, CellView::Painted(spec_or_dash(s.protocol), PaintRole::Muted)),
    ] + spec_raw_section(s.extra_json)
}

/// The detail view of a VPN server; see [`spec_server_detail`].
pub fn server_detail(server: &VpnServer) -> (r: Vec<DetailLine>)
    ensures
        detail_views(r@) == spec_server_detail(*server),
{
    let mut lines: Vec<DetailLine> = Vec::new();
    push_field(&mut lines, "ID:                ", painted(server.id.value.clone(), PaintRole::Id));
    push_field(&mut lines, "Name:              ", painted(text_or_dash(&server.name), PaintRole::Name));
    push_field(&mut lines, "Type:              ", painted(server.server_type.clone(), PaintRole::Muted));
    push_field(&mut lines, "Enabled:           ", flag_or_dash(server.enabled));
    push_field(&mut lines, "Subnet:            ", painted(text_or_dash(&server.subnet), PaintRole::Ip));
    push_field(&mut lines, "Port:              ", painted(display_optional(widen16(server.port)), PaintRole::Number));
    push_field(&mut lines, "WAN IP:            ", painted(text_or_dash(&server.wan_ip), PaintRole::Ip));
    push_field(&mut lines, "Connected Clients: ", painted(display_optional(widen32(server.connected_clients)), PaintRole::Number));
    push_field(&mut lines, "Protocol:          ", painted(text_or_dash(&server.protocol), PaintRole::Muted));
    append_extra(&mut lines, &server.extra_json);
    assert(detail_views(lines@) =~= spec_server_detail(*server));
    lines
}

/// The detail view of a VPN tunnel.
pub open spec fn spec_tunnel_detail(t: VpnTunnel) -> Seq<DetailLineView> {
    seq![
        DetailLineView::Field("ID:             "@, CellView::Painted(t.id.value@, PaintRole::Id)),
        DetailLineView::Field("Name:           "@, CellView::Painted(spec_or_dash(t.name), PaintRole::Name)),
        DetailLineView::Field("Type:           "@, CellView::Painted(t.tunnel_type@, PaintRole::Muted)),
        DetailLineView::Field("Enabled:        "@, spec_flag_or_dash(t.enabled)),
        DetailLineView::Field("Peer Address:   "@, CellView::Painted(spec_or_dash(t.peer_address), PaintRole::Ip)),
        DetailLineView::Field("Local Subnets:  "@, CellView::Painted(spec_list_or_dash(t.local_subnets@), PaintRole::Ip)),
        DetailLineView::Field("Remote Subnets: "@, CellView::Painted(spec_list_or_dash(t.remote_subnets@), PaintRole::Ip)),
        DetailLineView::Field(
            "Has PSK:        "@,
            if t.has_psk {
                CellView::Painted("yes"@, PaintRole::Success)
            } else {
                CellView::Painted("no"@, PaintRole::Error)
            },
        ),
        DetailLineView::Field("IKE Version:    "@, CellView::Painted(spec_or_dash(t.ike_version), PaintRole::Muted)),
    ] + spec_raw_section(t.extra_json)
}

/// The detail view of a VPN tunnel; see [`spec_tunnel_detail`].
pub fn tunnel_detail(tunnel: &VpnTunnel) -> (r: Vec<DetailLine>)
    ensures
        detail_views(r@) == spec_tunnel_detail(*tunnel),
{
    let mut lines: Vec<DetailLine> = Vec::new();
    push_field(&mut lines, "ID:             ", painted(tunnel.id.value.clone(), PaintRole::Id));
    push_field(&mut lines, "Name:           ", painted(text_or_dash(&tunnel.name), PaintRole::Name));
    push_field(&mut lines, "Type:           ", painted(tunnel.tunnel_type.clone(), PaintRole::Muted));
    push_field(&mut lines, "Enabled:        ", flag_or_dash(tunnel.enabled));
    push_field(&mut lines, "Peer Address:   ", painted(text_or_dash(&tunnel.peer_address), PaintRole::Ip));
    push_field(&mut lines, "Local Subnets:  ", painted(display_list(&tunnel.local_subnets), PaintRole::Ip));
    push_field(&mut lines, "Remote Subnets: ", painted(display_list(&tunnel.remote_subnets), PaintRole::Ip));
    let psk = if tunnel.has_psk {
        painted(owned("yes"), PaintRole::Success)
    } else {
        painted(owned("no"), PaintRole::Error)
    };
    push_field(&mut lines, "Has PSK:        ", psk);
    push_field(&mut lines, "IKE Version:    ", painted(text_or_dash(&tunnel.ike_version), PaintRole::Muted));
    append_extra(&mut lines, &tunnel.extra_json);
    assert(detail_views(lines@) =~= spec_tunnel_detail(*tunnel));
    lines
}

/// The gateways joined with commas, or the placeholder when unknown.
pub open spec fn spec_gateways_text(g: Option<Vec<String>>) -> Seq<char> {
    match g {
        Some(v) => spec_join(views(v@), ", "@),
        None => dash(),
    }
}

/// The detail view of the VPN subsystem's health.
pub open spec fn spec_vpn_health_detail(h: HealthSummary) -> Seq<DetailLineView> {
    seq![
        DetailLineView::Field("Subsystem: "@, CellView::Painted(h.subsystem@, PaintRole::Name)),
        DetailLineView::Field("Status:    "@, CellView::Painted(h.status@, PaintRole::Health)),
        DetailLineView::Field("Devices:   "@, CellView::Painted(spec_number_or_dash(spec_widen32(h.num_adopted)), PaintRole::Number)),
        DetailLineView::Field("Clients:   "@, CellView::Painted(spec_number_or_dash(spec_widen32(h.num_sta)), PaintRole::Number)),
        DetailLineView::Field("TX/s:      "@, CellView::Painted(spec_number_or_dash(h.tx_bytes_r), PaintRole::Number)),
        DetailLineView::Field("RX/s:      "@, CellView::Painted(spec_number_or_dash(h.rx_bytes_r), PaintRole::Number)),
        DetailLineView::Field("Latency:   "@, spec_role_or_muted_dash(h.latency, PaintRole::Number)),
        DetailLineView::Field("WAN IP:    "@, CellView::Painted(spec_or_dash(h.wan_ip), PaintRole::Ip)),
        DetailLineView::Field("Gateways:  "@, CellView::Painted(spec_gateways_text(h.gateways), PaintRole::Ip)),
    ] + spec_raw_section(h.extra_json)
}

/// The detail view of the VPN subsystem's health; see
/// [`spec_vpn_health_detail`].
pub fn vpn_health_detail(health: &HealthSummary) -> (r: Vec<DetailLine>)
    ensures
        detail_views(r@) == spec_vpn_health_detail(*health),
{
    let mut lines: Vec<DetailLine> = Vec::new();
    push_field(&mut lines, "Subsystem: ", painted(health.subsystem.clone(), PaintRole::Name));
    push_field(&mut lines, "Status:    ", painted(health.status.clone(), PaintRole::Health));
    push_field(&mut lines, "Devices:   ", painted(display_optional(widen32(health.num_adopted)), PaintRole::Number));
    push_field(&mut lines, "Clients:   ", painted(display_optional(widen32(health.num_sta)), PaintRole::Number));
    push_field(&mut lines, "TX/s:      ", painted(display_optional(health.tx_bytes_r), PaintRole::Number));
    push_field(&mut lines, "RX/s:      ", painted(display_optional(health.rx_bytes_r), PaintRole::Number));
    push_field(&mut lines, "Latency:   ", role_or_muted_dash(&health.latency, PaintRole::Number));
    push_field(&mut lines, "WAN IP:    ", painted(text_or_dash(&health.wan_ip), PaintRole::Ip));
    let gateways = match &health.gateways {
        Some(v) => join(v, ", "),
        None => owned("-"),
    };
    push_field(&mut lines, "Gateways:  ", painted(gateways, PaintRole::Ip));
    append_extra(&mut lines, &health.extra_json);
    assert(detail_views(lines@) =~= spec_vpn_health_detail(*health));
    lines
}

// ── Session settings ──────────────────────────────────────────────────

/// The VPN settings the `vpn settings` commands name.
#[derive(Debug, Clone, Copy, PartialEq, Eq, Structural)]
pub enum VpnSettingKey {
    Teleport,
    MagicSiteToSiteVpn,
    Openvpn,
    PeerToPeer,
}

/// The site-setting key of a VPN setting.
pub fn vpn_setting_key_name(key: VpnSettingKey) -> (r: &'static str)
    ensures
        r@ == match key {
            VpnSettingKey::Teleport => "teleport"@,
            VpnSettingKey::MagicSiteToSiteVpn => "magic_site_to_site_vpn"@,
            VpnSettingKey::Openvpn => "openvpn"@,
            VpnSettingKey::PeerToPeer => "peer_to_peer"@,
        },
{
    match key {
        VpnSettingKey::Teleport => "teleport",
        VpnSettingKey::MagicSiteToSiteVpn => "magic_site_to_site_vpn",
        VpnSettingKey::Openvpn => "openvpn",
        VpnSettingKey::PeerToPeer => "peer_to_peer",
    }
}

/// The body of a settings update: the `fields` object of what the user
/// gave, when it has one, else all of it.
pub open spec fn spec_patch_body(body: JsonView) -> JsonView {
    match spec_get(body, "fields"@) {
        Some(JsonView::Object(m)) => JsonView::Object(m),
        _ => body,
    }
}

/// The body of a settings update; see [`spec_patch_body`].
pub fn vpn_setting_patch_body(body: JsonValue) -> (r: JsonValue)
    ensures
        r@ == spec_patch_body(body@),
{
    let fields = match crate::json::get(&body, "fields") {
        Some(f) => match f {
            JsonValue::Object(_) => Some(crate::json::deep_clone(f)),
            _ => None,
        },
        None => None,
    };
    match fields {
        Some(f) => f,
        None => body,
    }
}

/// A row of the VPN settings table.
pub struct VpnSettingRow {
    pub key: Cell,
    pub enabled: Cell,
    pub fields: Cell,
}

/// The names of a setting's fields, `enabled` left out.
pub open spec fn spec_field_names(setting: crate::session::VpnSetting) -> Seq<Seq<char>> {
    crate::json::entries_view(setting.fields@).map_values(|e: (Seq<char>, JsonView)| e.0).filter(
        |n: Seq<char>| n != "enabled"@,
    )
}

pub open spec fn spec_vpn_setting_row(r: VpnSettingRow, s: crate::session::VpnSetting) -> bool {
    &&& r.key@ == CellView::Painted(s.key@, PaintRole::Name)
    &&& r.enabled@ == spec_flag_or_dash(s.enabled)
    &&& exists|names: Seq<Seq<char>>|
        #![trigger spec_text_sorted(names)]
        spec_text_sorted(names) && names.to_multiset() == spec_field_names(s).to_multiset() && r.fields@
            == CellView::Painted(spec_join(names, ", "@), PaintRole::Muted)
}

/// The table row of a VPN setting: its key, its state and its other field
/// names in text order.
pub fn vpn_setting_row(setting: &crate::session::VpnSetting) -> (r: VpnSettingRow)
    ensures
        spec_vpn_setting_row(r, *setting),
{
    let ghost all = crate::json::entries_view(setting.fields@).map_values(|e: (Seq<char>, JsonView)| e.0);
    let ghost pred = |n: Seq<char>| n != "enabled"@;
    let mut names: Vec<String> = Vec::new();
    let mut i: usize = 0;
    while i < setting.fields.len()
        invariant
            i <= setting.fields@.len(),
            all == crate::json::entries_view(setting.fields@).map_values(|e: (Seq<char>, JsonView)| e.0),
            pred == (|n: Seq<char>| n != "enabled"@),
            text_views(names@) == all.take(i as int).filter(pred),
        decreases setting.fields@.len() - i,
    {
        proof {
            reveal(Seq::filter);
            assert(all.take(i + 1).drop_last() =~= all.take(i as int));
            assert(all.take(i + 1).last() == setting.fields@[i as int].0@);
        }
        if !crate::text::str_eq(setting.fields[i].0.as_str(), "enabled") {
            let ghost before = text_views(names@);
            names.push(setting.fields[i].0.clone());
            assert(text_views(names@) =~= before.push(setting.fields@[i as int].0@));
        }
        i = i + 1;
    }
    proof {
        assert(all.take(setting.fields@.len() as int) =~= all);
    }
    let sorted = sort_texts(names);
    let text = join(&sorted, ", ");
    proof {
        assert(views(sorted@) =~= text_views(sorted@));
        assert(spec_text_sorted(text_views(sorted@)));
    }
    VpnSettingRow {
        key: painted(setting.key.clone(), PaintRole::Name),
        enabled: flag_or_dash(setting.enabled),
        fields: painted(text, PaintRole::Muted),
    }
}

/// An IPsec association's row shows the bytes it sent under TX and the
/// bytes it received under RX, each as a decimal number, or `-` when the
/// controller did not report it; the two are never exchanged.
pub proof fn law_ipsec_row_keeps_tx_and_rx_apart(r: IpsecSaRow, sa: IpsecSa)
    requires
        spec_ipsec_sa_row(r, sa),
    ensures
        r.tx@ == CellView::Painted(counter_text(sa.tx_bytes), PaintRole::Number),
        r.rx@ == CellView::Painted(counter_text(sa.rx_bytes), PaintRole::Number),
{
}

/// The decimal text of a counter the controller may leave out, `-` then.
pub open spec fn counter_text(o: Option<u64>) -> Seq<char> {
    match o {
        Some(n) => spec_decimal(n as nat),
        None => "-"@,
    }
}

/// The VPN health view shows the transmit rate on its `TX/s` line and the
/// receive rate on its `RX/s` line, the adopted devices on `Devices` and
/// the stations on `Clients`, each as a decimal number or `-`.
pub proof fn law_health_detail_labels_its_counters(h: HealthSummary)
    ensures
        spec_vpn_health_detail(h)[2] == DetailLineView::Field(
            "Devices:   "@,
            CellView::Painted(counter_text(spec_widen32(h.num_adopted)), PaintRole::Number),
        ),
        spec_vpn_health_detail(h)[3] == DetailLineView::Field(
            "Clients:   "@,
            CellView::Painted(counter_text(spec_widen32(h.num_sta)), PaintRole::Number),
        ),
        spec_vpn_health_detail(h)[4] == DetailLineView::Field(
            "TX/s:      "@,
            CellView::Painted(counter_text(h.tx_bytes_r), PaintRole::Number),
        ),
        spec_vpn_health_detail(h)[5] == DetailLineView::Field(
            "RX/s:      "@,
            CellView::Painted(counter_text(h.rx_bytes_r), PaintRole::Number),
        ),
{
}

/// An optional address as a table cell: the address itself, or a muted `-`.
pub open spec fn address_cell(o: Option<String>) -> CellView {
    match o {
        Some(a) => CellView::Painted(a@, PaintRole::Ip),
        None => CellView::Painted("-"@, PaintRole::Muted),
    }
}

/// Address columns hold their own addresses: a client connection shows
/// its local address under Local and the peer's under Remote, and a
/// WireGuard peer its IPv4 interface address under IPv4 and its IPv6 one
/// under IPv6; none of them is ever shown in the other's column.
pub proof fn law_address_columns_hold_their_own_addresses(
    cr: VpnClientConnectionRow,
    c: VpnClientConnection,
    wr: WireGuardPeerRow,
    p: WireGuardPeer,
)
    requires
        spec_vpn_client_connection_row(cr, c),
        spec_wireguard_peer_row(wr, p),
    ensures
        cr.local_address@ == address_cell(c.local_address),
        cr.remote_address@ == address_cell(c.remote_address),
        wr.interface_ip@ == address_cell(p.interface_ip),
        wr.interface_ipv6@ == address_cell(p.interface_ipv6),
{
}

} // verus!
