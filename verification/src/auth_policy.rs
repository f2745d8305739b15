//! The authentication and privacy policy: which event kinds need a
//! NIP-42 authenticated client, whether reading needs one, and which
//! pubkeys may write when the relay is in whitelist mode.

use std::collections::HashSet;
use vstd::prelude::*;
use crate::text::{eq_ignore_ascii_case, str_eq_ignore_ascii_case};

verus! {

broadcast use vstd::std_specs::hash::group_hash_axioms;


/// Event kind of direct messages (NIP-04); always protected.
pub const KIND_DIRECT_MESSAGE: u16 = 4;

/// Event kind of gift wraps (NIP-59); always protected.
pub const KIND_GIFT_WRAP: u16 = 1059;

/// Event kind of private direct messages (NIP-17); always protected.
pub const KIND_PRIVATE_DIRECT_MESSAGE: u16 = 17;

/// Event kind of text notes; protected when the settings ask for it.
pub const KIND_TEXT_NOTE: u16 = 1;

/// Event kind of profile metadata; protected when the settings ask for it.
pub const KIND_METADATA: u16 = 0;

/// Authentication policy, as loaded from the relay's settings.
#[derive(Debug)]
pub struct AuthPolicy {
    /// Require AUTH for all operations
    pub global_auth_required: bool,
    /// Only allow authenticated, whitelisted pubkeys to write
    pub whitelist_only: bool,
    /// Require AUTH even for reading/subscribing
    pub auth_read_required: bool,
    /// Event kinds that require AUTH
    pub protected_kinds: HashSet<u16>,
    /// Whitelisted pubkey hex values (a set: the order carries no meaning)
    pub whitelisted_pubkeys: Vec<String>,
}

/// The settings an administrator changes from the dashboard.
pub struct AuthPolicyUpdate {
    pub global_auth_required: bool,
    pub whitelist_only: bool,
    pub auth_read_required: bool,
    /// Protect kind 0 (metadata)
    pub auth_kind_0: bool,
    /// Protect kind 1 (text notes)
    pub auth_kind_1: bool,
}

/// The raw values of the policy settings as stored; `None` where a setting
/// is missing or could not be read.
pub struct PolicySettings {
    pub global_auth_required: Option<String>,
    pub whitelist_only: Option<String>,
    pub auth_read_required: Option<String>,
    pub auth_kind_1: Option<String>,
    pub auth_kind_0: Option<String>,
}

/// `pk` occurs in `list`.
pub open spec fn listed(list: Seq<String>, pk: Seq<char>) -> bool {
    exists|i: int| 0 <= i < list.len() && #[trigger] list[i]@ == pk
}

/// No pubkey occurs twice in `list`.
pub open spec fn no_duplicates(list: Seq<String>) -> bool {
    forall|i: int, j: int| 0 <= i < j < list.len() ==> #[trigger] list[i]@ != #[trigger] list[j]@
}

/// A stored setting value that switches its setting on: `true` in any
/// ASCII case, or `1`.
pub open spec fn value_enables(v: Seq<char>) -> bool {
    eq_ignore_ascii_case(v, seq!['t', 'r', 'u', 'e']) || v == seq!['1']
}

/// A setting that is on; a missing setting is off.
pub open spec fn setting_on(v: Option<String>) -> bool {
    match v {
        Some(s) => value_enables(s@),
        None => false,
    }
}

/// The kinds that a policy built from settings protects.
pub open spec fn protected_by_settings(kind: u16, kind_1_on: bool, kind_0_on: bool) -> bool {
    ||| kind == KIND_DIRECT_MESSAGE
    ||| kind == KIND_GIFT_WRAP
    ||| kind == KIND_PRIVATE_DIRECT_MESSAGE
    ||| (kind == KIND_TEXT_NOTE && kind_1_on)
    ||| (kind == KIND_METADATA && kind_0_on)
}

/// Reads a stored setting value as a switch: on for `true` in any ASCII
/// case or for `1`, off for anything else and for a missing value.
pub fn setting_enabled(value: &Option<String>) -> (r: bool)
    ensures
        r == setting_on(*value),
{
    match value {
        Some(v) => {
            let s = v.as_str();
            let t = "true";
            proof {
                reveal_strlit("true");
                assert(t@ =~= seq!['t', 'r', 'u', 'e']);
            }
            if str_eq_ignore_ascii_case(s, t) {
                true
            } else {
                let is_one = s.unicode_len() == 1 && s.get_char(0) == '1';
                proof {
                    if s@.len() == 1 && s@[0] == '1' {
                        assert(s@ =~= seq!['1']);
                    }
                }
                is_one
            }
        },
        None => false,
    }
}

/// Whether `pk` occurs in `list`.
pub fn contains_pubkey(list: &Vec<String>, pk: &str) -> (r: bool)
    ensures
        r == listed(list@, pk@),
{
    let key = pk.to_owned();
    let mut i: usize = 0;
    while i < list.len()
        invariant
            key@ == pk@,
            i <= list.len(),
            forall|j: int| 0 <= j < i ==> #[trigger] list@[j]@ != pk@,
        decreases list.len() - i,
    {
        if list[i] == key {
            return true;
        }
        i = i + 1;
    }
    false
}

/// The pubkeys of `list`, each kept at its first occurrence and dropped at
/// every later one.
pub open spec fn first_occurrences(list: Seq<String>) -> Seq<String>
    decreases list.len(),
{
    if list.len() == 0 {
        Seq::empty()
    } else {
        let kept = first_occurrences(list.drop_last());
        if listed(kept, list.last()@) {
            kept
        } else {
            kept.push(list.last())
        }
    }
}

/// The pubkeys of `list`, each once, in the order of their first occurrence.
pub fn dedup_pubkeys(list: &Vec<String>) -> (r: Vec<String>)
    ensures
        r@ == first_occurrences(list@),
        no_duplicates(r@),
        forall|pk: Seq<char>| listed(r@, pk) <==> listed(list@, pk),
{
    let mut out: Vec<String> = Vec::new();
    let mut i: usize = 0;
    while i < list.len()
        invariant
            i <= list.len(),
            out@ == first_occurrences(list@.take(i as int)),
            no_duplicates(out@),
            forall|pk: Seq<char>| listed(out@, pk) <==> listed(list@.take(i as int), pk),
        decreases list.len() - i,
    {
        let present = contains_pubkey(&out, list[i].as_str());
        let ghost before = out@;
        if !present {
            out.push(list[i].clone());
            proof {
                assert forall|a: int, b: int| 0 <= a < b < out@.len() implies out@[a]@ != out@[b]@ by {
                    if b == out@.len() - 1 {
                        assert(before[a]@ == out@[a]@);
                    }
                }
                assert forall|pk: Seq<char>| listed(out@, pk) implies listed(before, pk) || pk == list@[i as int]@ by {
                    let k: int = choose|k: int| 0 <= k < out@.len() && #[trigger] out@[k]@ == pk;
                    if k < before.len() {
                        assert(before[k]@ == pk);
                    }
                }
                assert forall|pk: Seq<char>| listed(before, pk) implies listed(out@, pk) by {
                    let k: int = choose|k: int| 0 <= k < before.len() && #[trigger] before[k]@ == pk;
                    assert(out@[k]@ == pk);
                }
                assert(out@[out@.len() - 1]@ == list@[i as int]@);
            }
        }
        proof {
            assert forall|pk: Seq<char>| listed(out@, pk) <==> (listed(before, pk) || pk == list@[i as int]@) by {
                if !present {
                    assert(listed(out@, pk) <==> (listed(before, pk) || pk == list@[i as int]@));
                } else {
                    assert(out@ == before);
                }
            }
            let next = list@.take(i + 1);
            assert(next =~= list@.take(i as int).push(list@[i as int]));
            assert(next.drop_last() =~= list@.take(i as int));
            assert(next.last() == list@[i as int]);
            if !present {
                assert(out@ =~= before.push(list@[i as int]));
            }
            assert(out@ == first_occurrences(next));
            assert forall|pk: Seq<char>| listed(next, pk) <==> (listed(list@.take(i as int), pk) || pk == list@[i as int]@) by {
                if listed(next, pk) {
                    let k: int = choose|k: int| 0 <= k < next.len() && #[trigger] next[k]@ == pk;
                    if k < i {
                        assert(list@.take(i as int)[k]@ == pk);
                    }
                }
                if listed(list@.take(i as int), pk) {
                    let k: int = choose|k: int| 0 <= k < i && #[trigger] list@.take(i as int)[k]@ == pk;
                    assert(next[k]@ == pk);
                }
                if pk == list@[i as int]@ {
                    assert(next[i as int]@ == pk);
                }
            }
            assert forall|pk: Seq<char>| listed(out@, pk) <==> listed(next, pk) by {
                assert(listed(out@, pk) <==> (listed(before, pk) || pk == list@[i as int]@));
                assert(listed(next, pk) <==> (listed(list@.take(i as int), pk) || pk == list@[i as int]@));
            }
        }
        i = i + 1;
    }
    proof {
        assert(list@.take(list@.len() as int) =~= list@);
    }
    out
}

impl AuthPolicy {
    /// Events of `kind` need an authenticated client.
    pub open spec fn kind_protected(&self, kind: u16) -> bool {
        self.global_auth_required || self.protected_kinds@.contains(kind)
    }

    /// `pk` passes the whitelist check.
    pub open spec fn pubkey_allowed(&self, pk: Seq<char>) -> bool {
        !self.whitelist_only || listed(self.whitelisted_pubkeys@, pk)
    }

    /// Reading and subscribing need an authenticated client: when read
    /// protection is on, and when every operation needs AUTH.
    pub open spec fn read_protected(&self) -> bool {
        self.auth_read_required || self.global_auth_required
    }

    /// A write of an event of `kind` by `pk` is allowed: the kind is
    /// unprotected or the writer has authenticated, the pubkey passes the
    /// whitelist, and in whitelist mode the writer has authenticated.
    pub open spec fn write_allowed(&self, pk: Seq<char>, kind: u16, authenticated: bool) -> bool {
        &&& authenticated || !self.kind_protected(kind)
        &&& self.pubkey_allowed(pk)
        &&& authenticated || !self.whitelist_only
    }

    /// Builds the policy from the stored settings and the whitelisted
    /// pubkeys. Direct messages, gift wraps and private direct messages are
    /// always protected; text notes and metadata when their setting is on.
    pub fn from_settings(settings: &PolicySettings, whitelist: &Vec<String>) -> (p: AuthPolicy)
        ensures
            p.global_auth_required == setting_on(settings.global_auth_required),
            p.whitelist_only == setting_on(settings.whitelist_only),
            p.auth_read_required == setting_on(settings.auth_read_required),
            forall|kind: u16|
                #[trigger] p.protected_kinds@.contains(kind) <==> protected_by_settings(
                    kind,
                    setting_on(settings.auth_kind_1),
                    setting_on(settings.auth_kind_0),
                ),
            p.kind_protected(KIND_DIRECT_MESSAGE),
            p.kind_protected(KIND_GIFT_WRAP),
            p.kind_protected(KIND_PRIVATE_DIRECT_MESSAGE),
            no_duplicates(p.whitelisted_pubkeys@),
            forall|pk: Seq<char>| listed(p.whitelisted_pubkeys@, pk) <==> listed(whitelist@, pk),
    {
        let global_auth = setting_enabled(&settings.global_auth_required);
        let whitelist_only = setting_enabled(&settings.whitelist_only);
        let auth_read = setting_enabled(&settings.auth_read_required);

        let mut protected_kinds: HashSet<u16> = HashSet::new();
        protected_kinds.insert(KIND_DIRECT_MESSAGE);
        protected_kinds.insert(KIND_GIFT_WRAP);
        protected_kinds.insert(KIND_PRIVATE_DIRECT_MESSAGE);
        let kind_1_on = setting_enabled(&settings.auth_kind_1);
        if kind_1_on {
            protected_kinds.insert(KIND_TEXT_NOTE);
        }
        let kind_0_on = setting_enabled(&settings.auth_kind_0);
        if kind_0_on {
            protected_kinds.insert(KIND_METADATA);
        }

        let whitelisted_pubkeys = dedup_pubkeys(whitelist);

        AuthPolicy {
            global_auth_required: global_auth,
            whitelist_only,
            auth_read_required: auth_read,
            protected_kinds,
            whitelisted_pubkeys,
        }
    }

    /// Check if a specific event kind requires authentication
    pub fn requires_auth_for_kind(&self, kind: u16) -> (r: bool)
        ensures
            r == self.kind_protected(kind),
            r == (self.global_auth_required || self.protected_kinds@.contains(kind)),
    {
        self.global_auth_required || self.protected_kinds.contains(&kind)
    }

    /// Check if reading/subscribing requires authentication: read
    /// protection, or AUTH required for all operations
    pub fn requires_auth_for_read(&self) -> (r: bool)
        ensures
            r == self.read_protected(),
            r == (self.auth_read_required || self.global_auth_required),
    {
        self.auth_read_required || self.global_auth_required
    }

    /// Check if a pubkey is whitelisted (only matters if whitelist_only=true)
    pub fn is_whitelisted(&self, pubkey: &str) -> (r: bool)
        ensures
            r == self.pubkey_allowed(pubkey@),
            r == (!self.whitelist_only || listed(self.whitelisted_pubkeys@, pubkey@)),
    {
        !self.whitelist_only || contains_pubkey(&self.whitelisted_pubkeys, pubkey)
    }

    /// Check if a write operation should be allowed
    pub fn can_write(&self, pubkey: &str, kind: u16, is_authenticated: bool) -> (r: bool)
        ensures
            r == self.write_allowed(pubkey@, kind, is_authenticated),
    {
        // If global auth required and not authenticated, reject
        if self.global_auth_required && !is_authenticated {
            return false;
        }
        // If this kind requires auth and not authenticated, reject
        if self.requires_auth_for_kind(kind) && !is_authenticated {
            return false;
        }
        // If whitelist mode enabled and not whitelisted, reject
        if !self.is_whitelisted(pubkey) {
            return false;
        }
        // Whitelist mode only admits authenticated writers
        if self.whitelist_only && !is_authenticated {
            return false;
        }
        true
    }
}

impl Clone for AuthPolicy {
    /// A copy with the same switches, kinds and pubkeys.
    fn clone(&self) -> (c: Self)
        ensures
            c.global_auth_required == self.global_auth_required,
            c.whitelist_only == self.whitelist_only,
            c.auth_read_required == self.auth_read_required,
            c.protected_kinds@ == self.protected_kinds@,
            c.whitelisted_pubkeys@ == self.whitelisted_pubkeys@,
    {
        let mut kinds: HashSet<u16> = HashSet::new();
        let ghost all = self.protected_kinds@;
        for k in it: self.protected_kinds.iter()
            invariant
                it.seq().unref().to_set() == all,
                forall|x: u16| #[trigger] kinds@.contains(x) ==> all.contains(x),
                forall|x: u16| #[trigger] all.contains(x) ==> kinds@.contains(x) || exists|j: int|
                    it.index() <= j < it.seq().len() && *it.seq()[j] == x,
        {
            proof {
                let s = it.seq().unref();
                assert(s[it.index() as int] == *k);
                assert(s.contains(*k));
                assert forall|x: u16| #[trigger] all.contains(x) && x != *k implies kinds@.contains(x) || exists|j: int|
                    it.index() + 1 <= j < it.seq().len() && *it.seq()[j] == x by {
                    if !kinds@.contains(x) {
                        let j = choose|j: int| it.index() <= j < it.seq().len() && *it.seq()[j] == x;
                        assert(j != it.index());
                    }
                }
            }
            kinds.insert(*k);
        }
        proof {
            assert(kinds@ =~= all);
        }
        let mut pubkeys: Vec<String> = Vec::new();
        let mut i: usize = 0;
        while i < self.whitelisted_pubkeys.len()
            invariant
                i <= self.whitelisted_pubkeys@.len(),
                pubkeys@ == self.whitelisted_pubkeys@.take(i as int),
            decreases self.whitelisted_pubkeys.len() - i,
        {
            pubkeys.push(self.whitelisted_pubkeys[i].clone());
            proof {
                assert(self.whitelisted_pubkeys@.take(i + 1) =~= self.whitelisted_pubkeys@.take(i as int).push(
                    self.whitelisted_pubkeys@[i as int],
                ));
            }
            i = i + 1;
        }
        proof {
            assert(self.whitelisted_pubkeys@.take(i as int) =~= self.whitelisted_pubkeys@);
        }
        AuthPolicy {
            global_auth_required: self.global_auth_required,
            whitelist_only: self.whitelist_only,
            auth_read_required: self.auth_read_required,
            protected_kinds: kinds,
            whitelisted_pubkeys: pubkeys,
        }
    }
}

/// A write is allowed exactly when the kind is not protected (neither by
/// global AUTH nor by the kind set) or the writer has authenticated, and,
/// in whitelist mode, the writer has authenticated and is listed.
pub proof fn write_allowed_in_terms_of_the_settings(
    policy: AuthPolicy,
    pk: Seq<char>,
    kind: u16,
    authenticated: bool,
)
    ensures
        policy.write_allowed(pk, kind, authenticated) == ((authenticated || !(
        policy.global_auth_required || policy.protected_kinds@.contains(kind)))
            && (!policy.whitelist_only || (authenticated && listed(policy.whitelisted_pubkeys@, pk)))),
{
}

/// Outside global AUTH and whitelist mode, an unauthenticated write of a
/// kind that is not in the protected set is allowed.
pub proof fn unprotected_kind_open_to_unauthenticated(policy: AuthPolicy, pk: Seq<char>, kind: u16)
    requires
        !policy.global_auth_required,
        !policy.whitelist_only,
        !policy.protected_kinds@.contains(kind),
    ensures
        policy.write_allowed(pk, kind, false),
{
}

/// When every operation needs AUTH, every event kind needs it.
pub proof fn global_auth_protects_every_kind(policy: AuthPolicy, kind: u16)
    requires
        policy.global_auth_required,
    ensures
        policy.kind_protected(kind),
{
}

/// Outside whitelist mode every pubkey passes the whitelist check.
pub proof fn whitelist_off_admits_everyone(policy: AuthPolicy, pk: Seq<char>)
    requires
        !policy.whitelist_only,
    ensures
        policy.pubkey_allowed(pk),
{
}

/// An unauthenticated client can never write an event of a protected kind.
pub proof fn protected_kind_needs_auth(policy: AuthPolicy, pk: Seq<char>, kind: u16)
    requires
        policy.kind_protected(kind),
    ensures
        !policy.write_allowed(pk, kind, false),
{
}

/// For an authenticated client only the whitelist decides a write.
pub proof fn authenticated_write_is_whitelist_check(policy: AuthPolicy, pk: Seq<char>, kind: u16)
    ensures
        policy.write_allowed(pk, kind, true) == policy.pubkey_allowed(pk),
{
}

/// In whitelist mode only authenticated writers on the whitelist may write.
pub proof fn whitelist_mode_admits_only_authenticated_listed(
    policy: AuthPolicy,
    pk: Seq<char>,
    kind: u16,
    authenticated: bool,
)
    requires
        policy.whitelist_only,
    ensures
        policy.write_allowed(pk, kind, authenticated) ==> authenticated && listed(
            policy.whitelisted_pubkeys@,
            pk,
        ),
{
}

/// When every operation needs AUTH, so does reading.
pub proof fn global_auth_protects_reading(policy: AuthPolicy)
    requires
        policy.global_auth_required,
    ensures
        policy.read_protected(),
{
}

/// Authenticating never turns an allowed write into a refused one.
pub proof fn authentication_only_widens_writes(policy: AuthPolicy, pk: Seq<char>, kind: u16)
    ensures
        policy.write_allowed(pk, kind, false) ==> policy.write_allowed(pk, kind, true),
{
}

/// The stored text of a switch: `true` or `false`.
pub open spec fn switch_text(on: bool) -> Seq<char> {
    if on {
        seq!['t', 'r', 'u', 'e']
    } else {
        seq!['f', 'a', 'l', 's', 'e']
    }
}

/// The stored value of a switch.
pub open spec fn stores_switch(v: Option<String>, on: bool) -> bool {
    v matches Some(s) && s@ == switch_text(on)
}

fn switch_string(on: bool) -> (s: String)
    ensures
        s@ == switch_text(on),
{
    if on {
        let s = "true".to_owned();
        proof {
            reveal_strlit("true");
            assert(s@ =~= switch_text(on));
        }
        s
    } else {
        let s = "false".to_owned();
        proof {
            reveal_strlit("false");
            assert(s@ =~= switch_text(on));
        }
        s
    }
}

impl AuthPolicyUpdate {
    /// The settings to store for this update, each switch as `true` or
    /// `false`.
    pub fn to_settings(&self) -> (s: PolicySettings)
        ensures
            stores_switch(s.global_auth_required, self.global_auth_required),
            stores_switch(s.whitelist_only, self.whitelist_only),
            stores_switch(s.auth_read_required, self.auth_read_required),
            stores_switch(s.auth_kind_1, self.auth_kind_1),
            stores_switch(s.auth_kind_0, self.auth_kind_0),
    {
        PolicySettings {
            global_auth_required: Some(switch_string(self.global_auth_required)),
            whitelist_only: Some(switch_string(self.whitelist_only)),
            auth_read_required: Some(switch_string(self.auth_read_required)),
            auth_kind_1: Some(switch_string(self.auth_kind_1)),
            auth_kind_0: Some(switch_string(self.auth_kind_0)),
        }
    }
}

/// A stored switch reads back as the value that was stored.
pub proof fn stored_switch_reads_back(v: Option<String>, on: bool)
    requires
        stores_switch(v, on),
    ensures
        setting_on(v) == on,
{
    if !on {
        assert(!eq_ignore_ascii_case(switch_text(on), seq!['t', 'r', 'u', 'e']));
        assert(switch_text(on) != seq!['1']);
    }
}

/// Storing an update and loading the policy back gives the switches of the
/// update: the policy's flags are the update's, text notes and metadata are
/// protected exactly when the update asks for it, and the private kinds are
/// protected whatever it says.
pub proof fn policy_update_round_trip(u: AuthPolicyUpdate, s: PolicySettings, p: AuthPolicy, kind: u16)
    requires
        stores_switch(s.global_auth_required, u.global_auth_required),
        stores_switch(s.whitelist_only, u.whitelist_only),
        stores_switch(s.auth_read_required, u.auth_read_required),
        stores_switch(s.auth_kind_1, u.auth_kind_1),
        stores_switch(s.auth_kind_0, u.auth_kind_0),
        p.global_auth_required == setting_on(s.global_auth_required),
        p.whitelist_only == setting_on(s.whitelist_only),
        p.auth_read_required == setting_on(s.auth_read_required),
        p.protected_kinds@.contains(kind) <==> protected_by_settings(
            kind,
            setting_on(s.auth_kind_1),
            setting_on(s.auth_kind_0),
        ),
    ensures
        p.global_auth_required == u.global_auth_required,
        p.whitelist_only == u.whitelist_only,
        p.auth_read_required == u.auth_read_required,
        p.protected_kinds@.contains(kind) <==> protected_by_settings(kind, u.auth_kind_1, u.auth_kind_0),
{
    stored_switch_reads_back(s.global_auth_required, u.global_auth_required);
    stored_switch_reads_back(s.whitelist_only, u.whitelist_only);
    stored_switch_reads_back(s.auth_read_required, u.auth_read_required);
    stored_switch_reads_back(s.auth_kind_1, u.auth_kind_1);
    stored_switch_reads_back(s.auth_kind_0, u.auth_kind_0);
}

} // verus!
