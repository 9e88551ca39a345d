use vstd::prelude::*;

verus! {

/// Security flags that a scanned access point advertises.
#[derive(Clone, Copy, Debug, PartialEq, Eq, Structural)]
pub struct SecurityFlags {
    pub wep: bool,
    pub wpa: bool,
    pub wpa2: bool,
    pub enterprise: bool,
}

/// The class of credentials a network asks for.
#[derive(Clone, Copy, Debug, PartialEq, Eq, Structural)]
pub enum SecurityClass {
    Open,
    Wep,
    Wpa,
    Enterprise,
}

/// An access point as reported by a scan; `ssid` is `None` when the
/// network name is not valid text.
#[derive(Clone, Debug)]
pub struct ScannedAccessPoint {
    pub ssid: Option<String>,
    pub security: SecurityFlags,
}

/// A visible network kept in the handler's cache.
#[derive(Clone, Debug)]
pub struct AccessPoint {
    pub ssid: String,
    pub security: SecurityClass,
}

/// Mathematical model of an access point.
pub struct ApModel {
    pub ssid: Seq<char>,
    pub security: SecurityClass,
}

impl View for AccessPoint {
    type V = ApModel;

    open spec fn view(&self) -> ApModel {
        ApModel { ssid: self.ssid@, security: self.security }
    }
}

/// The public projection of an access point.
#[derive(Clone, Debug)]
pub struct Network {
    pub ssid: String,
    pub security: String,
}

/// Credentials handed to a join attempt, shaped by the network's security class.
#[derive(Clone, Debug)]
pub enum Credentials {
    Open,
    Wep { passphrase: String },
    Wpa { passphrase: String },
    Enterprise { identity: String, passphrase: String },
}

pub open spec fn security_class_of(f: SecurityFlags) -> SecurityClass {
    if f.enterprise {
        SecurityClass::Enterprise
    } else if f.wpa2 || f.wpa {
        SecurityClass::Wpa
    } else if f.wep {
        SecurityClass::Wep
    } else {
        SecurityClass::Open
    }
}

pub open spec fn security_label(c: SecurityClass) -> Seq<char> {
    match c {
        SecurityClass::Open => seq!['n', 'o', 'n', 'e'],
        SecurityClass::Wep => seq!['w', 'e', 'p'],
        SecurityClass::Wpa => seq!['w', 'p', 'a'],
        SecurityClass::Enterprise => seq!['e', 'n', 't', 'e', 'r', 'p', 'r', 'i', 's', 'e'],
    }
}

pub open spec fn aps_view(v: Seq<AccessPoint>) -> Seq<ApModel> {
    v.map_values(|a: AccessPoint| a@)
}

/// The access points of a scan that a client may join: those whose name is
/// valid text and differs from the portal's own name, in scan order.
pub open spec fn scan_filter(raw: Seq<ScannedAccessPoint>, own: Seq<char>) -> Seq<ApModel>
    decreases raw.len(),
{
    if raw.len() == 0 {
        seq![]
    } else {
        let rest = scan_filter(raw.drop_last(), own);
        let a = raw.last();
        match a.ssid {
            Some(s) => if s@ != own {
                rest.push(ApModel { ssid: s@, security: security_class_of(a.security) })
            } else {
                rest
            },
            None => rest,
        }
    }
}

pub open spec fn has_ssid(aps: Seq<ApModel>, ssid: Seq<char>) -> bool {
    exists|i: int| 0 <= i < aps.len() && #[trigger] aps[i].ssid == ssid
}

/// The entries of `previous` whose name is still present in `fresh`, in order.
pub open spec fn still_visible(previous: Seq<ApModel>, fresh: Seq<ApModel>) -> Seq<ApModel>
    decreases previous.len(),
{
    if previous.len() == 0 {
        seq![]
    } else {
        let rest = still_visible(previous.drop_last(), fresh);
        if has_ssid(fresh, previous.last().ssid) {
            rest.push(previous.last())
        } else {
            rest
        }
    }
}

/// The cache after a rescan: the fresh list, followed by every previous entry
/// whose name the fresh list still shows.
pub open spec fn merged(fresh: Seq<ApModel>, previous: Seq<ApModel>) -> Seq<ApModel> {
    fresh + still_visible(previous, fresh)
}

pub open spec fn network_of(n: Network, a: ApModel) -> bool {
    n.ssid@ == a.ssid && n.security@ == security_label(a.security)
}

pub open spec fn first_with_ssid(aps: Seq<ApModel>, ssid: Seq<char>, i: int) -> bool {
    0 <= i < aps.len() && aps[i].ssid == ssid && forall|j: int| 0 <= j < i ==> aps[j].ssid != ssid
}

/// Classifies the flags of a scanned access point.
pub fn security_class(f: SecurityFlags) -> (r: SecurityClass)
    ensures
        r == security_class_of(f),
{
    if f.enterprise {
        SecurityClass::Enterprise
    } else if f.wpa2 || f.wpa {
        SecurityClass::Wpa
    } else if f.wep {
        SecurityClass::Wep
    } else {
        SecurityClass::Open
    }
}

/// The name under which a security class is shown to clients.
pub fn get_network_security(c: SecurityClass) -> (r: String)
    ensures
        r@ == security_label(c),
{
    match c {
        SecurityClass::Open => {
            proof { reveal_strlit("none"); }
            String::from_str("none")
        },
        SecurityClass::Wep => {
            proof { reveal_strlit("wep"); }
            String::from_str("wep")
        },
        SecurityClass::Wpa => {
            proof { reveal_strlit("wpa"); }
            String::from_str("wpa")
        },
        SecurityClass::Enterprise => {
            proof { reveal_strlit("enterprise"); }
            String::from_str("enterprise")
        },
    }
}


/// Keeps the access points of a scan that a client may join.
pub fn filter_access_points(raw: &Vec<ScannedAccessPoint>, own_ssid: &String) -> (r: Vec<AccessPoint>)
    ensures
        aps_view(r@) == scan_filter(raw@, own_ssid@),
{
    let mut r: Vec<AccessPoint> = Vec::new();
    let mut i: usize = 0;
    while i < raw.len()
        invariant
            i <= raw@.len(),
            aps_view(r@) == scan_filter(raw@.take(i as int), own_ssid@),
        decreases raw@.len() - i,
    {
        proof {
            assert(raw@.take(i as int + 1).drop_last() == raw@.take(i as int));
            assert(raw@.take(i as int + 1).last() == raw@[i as int]);
        }
        let ghost before = r@;
        let a = &raw[i];
        match &a.ssid {
            Some(s) => {
                if !(*s == *own_ssid) {
                    let ap = AccessPoint { ssid: s.clone(), security: security_class(a.security) };
                    r.push(ap);
                    proof {
                        assert(aps_view(r@) =~= aps_view(before).push(ap@));
                    }
                }
            },
            None => {},
        }
        proof {
            let t = raw@.take(i as int + 1);
            assert(scan_filter(t, own_ssid@) == match t.last().ssid {
                Some(x) => if x@ != own_ssid@ {
                    scan_filter(t.drop_last(), own_ssid@).push(ApModel { ssid: x@, security: security_class_of(t.last().security) })
                } else {
                    scan_filter(t.drop_last(), own_ssid@)
                },
                None => scan_filter(t.drop_last(), own_ssid@),
            });
        }
        i = i + 1;
    }
    proof {
        assert(raw@.take(raw@.len() as int) == raw@);
    }
    r
}

fn contains_ssid_before(aps: &Vec<AccessPoint>, n: usize, ssid: &String) -> (r: bool)
    requires
        n <= aps@.len(),
    ensures
        r == has_ssid(aps_view(aps@).take(n as int), ssid@),
{
    let mut i: usize = 0;
    while i < n
        invariant
            i <= n <= aps@.len(),
            forall|j: int| 0 <= j < i ==> aps@[j].ssid@ != ssid@,
        decreases n - i,
    {
        if aps[i].ssid == *ssid {
            assert(aps_view(aps@).take(n as int)[i as int].ssid == ssid@);
            return true;
        }
        i = i + 1;
    }
    assert forall|j: int| 0 <= j < aps_view(aps@).take(n as int).len()
        implies aps_view(aps@).take(n as int)[j].ssid != ssid@ by {
        assert(aps@[j].ssid@ != ssid@);
    }
    false
}

/// A copy of a list of access points.
pub fn copy_access_points(aps: &Vec<AccessPoint>) -> (r: Vec<AccessPoint>)
    ensures
        aps_view(r@) == aps_view(aps@),
{
    let mut r: Vec<AccessPoint> = Vec::new();
    let mut i: usize = 0;
    while i < aps.len()
        invariant
            i <= aps@.len(),
            aps_view(r@) == aps_view(aps@).take(i as int),
        decreases aps@.len() - i,
    {
        let ghost before = r@;
        let a = AccessPoint { ssid: aps[i].ssid.clone(), security: aps[i].security };
        r.push(a);
        proof {
            assert(aps_view(r@) =~= aps_view(before).push(a@));
            assert(aps_view(aps@).take(i as int + 1) =~= aps_view(aps@).take(i as int).push(aps@[i as int]@));
        }
        i = i + 1;
    }
    assert(aps_view(aps@).take(aps@.len() as int) =~= aps_view(aps@));
    r
}

/// Merges a fresh scan with the previous cache: the fresh entries come first,
/// then every previous entry whose name the fresh scan still shows.
pub fn merge_access_points(fresh: Vec<AccessPoint>, previous: &Vec<AccessPoint>) -> (r: Vec<AccessPoint>)
    ensures
        aps_view(r@) == merged(aps_view(fresh@), aps_view(previous@)),
{
    let ghost f = aps_view(fresh@);
    let n: usize = fresh.len();
    let mut r = fresh;
    let mut i: usize = 0;
    while i < previous.len()
        invariant
            i <= previous@.len(),
            n == f.len(),
            n <= r@.len(),
            aps_view(r@) == f + still_visible(aps_view(previous@).take(i as int), f),
        decreases previous@.len() - i,
    {
        proof {
            let pv = aps_view(previous@);
            assert(pv.take(i as int + 1).drop_last() == pv.take(i as int));
            assert(pv.take(i as int + 1).last() == previous@[i as int]@);
            assert(aps_view(r@).take(n as int) == f);
        }
        let ghost before = r@;
        if contains_ssid_before(&r, n, &previous[i].ssid) {
            let a = AccessPoint { ssid: previous[i].ssid.clone(), security: previous[i].security };
            r.push(a);
            proof {
                assert(aps_view(r@) =~= aps_view(before).push(a@));
            }
        }
        proof {
            assert(aps_view(r@) =~= f + still_visible(aps_view(previous@).take(i as int + 1), f));
        }
        i = i + 1;
    }
    proof {
        assert(aps_view(previous@).take(previous@.len() as int) == aps_view(previous@));
    }
    r
}

/// The public projection of each access point, in order.
pub fn get_networks(aps: &Vec<AccessPoint>) -> (r: Vec<Network>)
    ensures
        r@.len() == aps@.len(),
        forall|i: int| 0 <= i < aps@.len() ==> network_of(#[trigger] r@[i], aps@[i]@),
{
    let mut r: Vec<Network> = Vec::new();
    let mut i: usize = 0;
    while i < aps.len()
        invariant
            i <= aps@.len(),
            r@.len() == i,
            forall|j: int| 0 <= j < i ==> network_of(#[trigger] r@[j], aps@[j]@),
        decreases aps@.len() - i,
    {
        let n = Network { ssid: aps[i].ssid.clone(), security: get_network_security(aps[i].security) };
        r.push(n);
        i = i + 1;
    }
    r
}

/// The position of the first access point with the given name.
pub fn find_access_point(aps: &Vec<AccessPoint>, ssid: &String) -> (r: Option<usize>)
    ensures
        r matches Some(i) ==> first_with_ssid(aps_view(aps@), ssid@, i as int),
        r is None ==> !has_ssid(aps_view(aps@), ssid@),
{
    let mut i: usize = 0;
    while i < aps.len()
        invariant
            i <= aps@.len(),
            forall|j: int| 0 <= j < i ==> aps@[j].ssid@ != ssid@,
        decreases aps@.len() - i,
    {
        if aps[i].ssid == *ssid {
            return Some(i);
        }
        i = i + 1;
    }
    assert forall|j: int| 0 <= j < aps_view(aps@).len() implies aps_view(aps@)[j].ssid != ssid@ by {
        assert(aps@[j].ssid@ != ssid@);
    }
    None
}

pub open spec fn credentials_match(c: Credentials, security: SecurityClass, identity: Seq<char>, passphrase: Seq<char>) -> bool {
    match security {
        SecurityClass::Enterprise => c matches Credentials::Enterprise { identity: i, passphrase: p }
            && i@ == identity && p@ == passphrase,
        SecurityClass::Wpa => c matches Credentials::Wpa { passphrase: p } && p@ == passphrase,
        SecurityClass::Wep => c matches Credentials::Wep { passphrase: p } && p@ == passphrase,
        SecurityClass::Open => c is Open,
    }
}

/// Builds the credentials that a network of the given class asks for.
pub fn init_access_point_credentials(security: SecurityClass, identity: &String, passphrase: &String) -> (r: Credentials)
    ensures
        credentials_match(r, security, identity@, passphrase@),
{
    match security {
        SecurityClass::Enterprise => Credentials::Enterprise { identity: identity.clone(), passphrase: passphrase.clone() },
        SecurityClass::Wpa => Credentials::Wpa { passphrase: passphrase.clone() },
        SecurityClass::Wep => Credentials::Wep { passphrase: passphrase.clone() },
        SecurityClass::Open => Credentials::Open,
    }
}


pub open spec fn avoids_ssid(aps: Seq<ApModel>, ssid: Seq<char>) -> bool {
    forall|i: int| 0 <= i < aps.len() ==> #[trigger] aps[i].ssid != ssid
}

/// A scan filtered against the portal's name never lists the portal.
pub proof fn lemma_filter_excludes_own(raw: Seq<ScannedAccessPoint>, own: Seq<char>)
    ensures
        avoids_ssid(scan_filter(raw, own), own),
    decreases raw.len(),
{
    if raw.len() > 0 {
        lemma_filter_excludes_own(raw.drop_last(), own);
    }
}

proof fn lemma_still_visible_avoids(previous: Seq<ApModel>, fresh: Seq<ApModel>, ssid: Seq<char>)
    requires
        avoids_ssid(previous, ssid),
    ensures
        avoids_ssid(still_visible(previous, fresh), ssid),
    decreases previous.len(),
{
    if previous.len() > 0 {
        lemma_still_visible_avoids(previous.drop_last(), fresh, ssid);
    }
}

/// Merging two lists that never name the portal yields one that never does.
pub proof fn lemma_merged_avoids(fresh: Seq<ApModel>, previous: Seq<ApModel>, ssid: Seq<char>)
    requires
        avoids_ssid(fresh, ssid),
        avoids_ssid(previous, ssid),
    ensures
        avoids_ssid(merged(fresh, previous), ssid),
{
    lemma_still_visible_avoids(previous, fresh, ssid);
    let m = merged(fresh, previous);
    assert forall|i: int| 0 <= i < m.len() implies #[trigger] m[i].ssid != ssid by {
        if i >= fresh.len() {
            assert(m[i] == still_visible(previous, fresh)[i - fresh.len()]);
        }
    }
}

/// A rescan into an empty cache yields exactly the fresh scan, with nothing
/// added to it.
pub proof fn lemma_merge_into_empty(fresh: Seq<ApModel>)
    ensures
        merged(fresh, seq![]) == fresh,
{
    assert(merged(fresh, seq![]) =~= fresh);
}

proof fn lemma_all_still_visible(previous: Seq<ApModel>, fresh: Seq<ApModel>)
    requires
        forall|i: int| 0 <= i < previous.len() ==> has_ssid(fresh, #[trigger] previous[i].ssid),
    ensures
        still_visible(previous, fresh) == previous,
    decreases previous.len(),
{
    if previous.len() > 0 {
        let d = previous.drop_last();
        assert forall|i: int| 0 <= i < d.len() implies has_ssid(fresh, #[trigger] d[i].ssid) by {
            assert(d[i] == previous[i]);
        }
        lemma_all_still_visible(d, fresh);
        assert(previous.len() > 0 ==> has_ssid(fresh, previous[previous.len() - 1].ssid));
        assert(d.push(previous.last()) =~= previous);
    }
}

/// Rescanning with an unchanged result lists every entry of the scan twice:
/// once as seen now, once as kept from before.
pub proof fn lemma_merge_repeated(aps: Seq<ApModel>)
    ensures
        merged(aps, aps) == aps + aps,
{
    assert forall|i: int| 0 <= i < aps.len() implies has_ssid(aps, #[trigger] aps[i].ssid) by {
        assert(aps[i].ssid == aps[i].ssid);
    }
    lemma_all_still_visible(aps, aps);
}



pub open spec fn distinct_names(aps: Seq<ApModel>) -> bool {
    forall|i: int, j: int| 0 <= i < j < aps.len() ==> aps[i].ssid != aps[j].ssid
}

/// No name occurs three times.
pub open spec fn at_most_twice(aps: Seq<ApModel>) -> bool {
    forall|i: int, j: int, k: int|
        0 <= i < j < k < aps.len() ==> !(aps[i].ssid == aps[j].ssid && aps[j].ssid == aps[k].ssid)
}

proof fn lemma_still_visible_distinct(previous: Seq<ApModel>, fresh: Seq<ApModel>)
    requires
        distinct_names(previous),
    ensures
        distinct_names(still_visible(previous, fresh)),
        forall|i: int| 0 <= i < still_visible(previous, fresh).len() ==> exists|j: int|
            0 <= j < previous.len() && #[trigger] still_visible(previous, fresh)[i] == previous[j],
    decreases previous.len(),
{
    if previous.len() > 0 {
        let d = previous.drop_last();
        let n = previous.len() - 1;
        assert forall|i: int, j: int| 0 <= i < j < d.len() implies d[i].ssid != d[j].ssid by {
            assert(d[i] == previous[i] && d[j] == previous[j]);
        }
        lemma_still_visible_distinct(d, fresh);
        let sd = still_visible(d, fresh);
        let sv = still_visible(previous, fresh);
        assert forall|i: int| 0 <= i < sd.len() implies exists|j: int| 0 <= j < n && #[trigger] sd[i] == previous[j] by {
            let j = choose|j: int| 0 <= j < d.len() && #[trigger] sd[i] == d[j];
            assert(sd[i] == previous[j]);
        }
        if has_ssid(fresh, previous.last().ssid) {
            assert(sv == sd.push(previous[n]));
            assert forall|i: int, j: int| 0 <= i < j < sv.len() implies sv[i].ssid != sv[j].ssid by {
                if j == sv.len() - 1 {
                    let k = choose|k: int| 0 <= k < n && sd[i] == previous[k];
                    assert(sv[i] == previous[k]);
                } else {
                    assert(sv[i] == sd[i] && sv[j] == sd[j]);
                }
            }
            assert forall|i: int| 0 <= i < sv.len() implies exists|j: int|
                0 <= j < previous.len() && #[trigger] sv[i] == previous[j] by {
                if i < sd.len() {
                    let k = choose|k: int| 0 <= k < n && sd[i] == previous[k];
                    assert(sv[i] == previous[k]);
                } else {
                    assert(sv[i] == previous[n]);
                }
            }
        } else {
            assert(sv == sd);
        }
    }
}

/// Merging a scan with the one before it, when each shows every name once,
/// lists no name more than twice.
pub proof fn lemma_at_most_twice_merged(fresh: Seq<ApModel>, previous: Seq<ApModel>)
    requires
        distinct_names(fresh),
        distinct_names(previous),
    ensures
        at_most_twice(merged(fresh, previous)),
{
    lemma_still_visible_distinct(previous, fresh);
    let sv = still_visible(previous, fresh);
    let m = merged(fresh, previous);
    let n = fresh.len() as int;
    assert forall|i: int, j: int, k: int| 0 <= i < j < k < m.len() implies !(m[i].ssid == m[j].ssid
        && m[j].ssid == m[k].ssid) by {
        if j < n {
            assert(m[i] == fresh[i] && m[j] == fresh[j]);
        } else {
            assert(m[j] == sv[j - n] && m[k] == sv[k - n]);
        }
    }
}

} // verus!
