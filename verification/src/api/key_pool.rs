use vstd::prelude::*;

use super::providers::{plain_text, provider_error_text, provider_of, ProviderKind};
use crate::storage::ApiKeyConfig;
use crate::text::{copy_opt_text, opt_text, same_text};

verus! {

#[derive(Debug, Clone, Copy, PartialEq, Eq, Structural)]
pub enum KeyStatus {
    Active,
    RateLimited,
    Invalid,
    Disabled,
}

/// An API key and its usage; times are milliseconds.
#[derive(Debug, Clone)]
pub struct ApiKey {
    pub id: String,
    pub provider: ProviderKind,
    pub alias: Option<String>,
    pub status: KeyStatus,
    pub rate_limit_until: Option<u64>,
    pub consecutive_errors: u8,
    pub last_used: Option<u64>,
    pub requests_total: u64,
    pub requests_success: u64,
}

/// The API keys of all providers.
#[derive(Debug, Clone)]
pub struct KeyPool {
    keys: Vec<ApiKey>,
}

/// One day in milliseconds.
pub const ONE_DAY_MS: u64 = 86_400_000;

/// A rate-limited key whose cooldown has ended at `now` is active again.
pub open spec fn expired(k: ApiKey, now: u64) -> ApiKey {
    if k.status == KeyStatus::RateLimited && (match k.rate_limit_until {
        Some(until) => until <= now,
        None => true,
    }) {
        ApiKey { status: KeyStatus::Active, rate_limit_until: None, ..k }
    } else {
        k
    }
}

pub open spec fn all_expired(keys: Seq<ApiKey>, now: u64) -> Seq<ApiKey> {
    keys.map_values(|k: ApiKey| expired(k, now))
}

pub open spec fn eligible(k: ApiKey, provider: ProviderKind) -> bool {
    k.provider == provider && k.status == KeyStatus::Active
}

/// When a key counts as last used: a key never used counts as used a day
/// before `now` (or at `now` when that lies before time zero).
pub open spec fn usage_time(k: ApiKey, now: u64) -> u64 {
    match k.last_used {
        Some(t) => t,
        None => if now >= ONE_DAY_MS {
            (now - ONE_DAY_MS) as u64
        } else {
            now
        },
    }
}

/// Key `i` is the one to use: an active key of the provider, least recently
/// used, and the first of those in the pool.
pub open spec fn chosen(keys: Seq<ApiKey>, provider: ProviderKind, now: u64, i: int) -> bool {
    &&& 0 <= i < keys.len()
    &&& eligible(keys[i], provider)
    &&& forall|j: int|
        0 <= j < keys.len() && eligible(#[trigger] keys[j], provider) ==> (usage_time(keys[i], now)
            < usage_time(keys[j], now) || (usage_time(keys[i], now) == usage_time(keys[j], now)
            && i <= j))
}

/// A key after it is handed out at `now`.
pub open spec fn used(k: ApiKey, now: u64) -> ApiKey {
    ApiKey { last_used: Some(now), requests_total: (k.requests_total + 1) as u64, ..k }
}

/// The first key with id `id`.
pub open spec fn first_with_id(keys: Seq<ApiKey>, id: Seq<char>, i: int) -> bool {
    &&& 0 <= i < keys.len()
    &&& keys[i].id@ == id
    &&& forall|j: int| 0 <= j < i ==> (#[trigger] keys[j]).id@ != id
}

pub open spec fn has_id(keys: Seq<ApiKey>, id: Seq<char>) -> bool {
    exists|i: int| 0 <= i < keys.len() && (#[trigger] keys[i]).id@ == id
}

/// `after` is `before` with the first key of id `id` replaced by `f` of it, or
/// unchanged when no key has that id.
pub open spec fn updated_first(
    before: Seq<ApiKey>,
    after: Seq<ApiKey>,
    id: Seq<char>,
    f: spec_fn(ApiKey) -> ApiKey,
) -> bool {
    if has_id(before, id) {
        exists|i: int| first_with_id(before, id, i) && after == before.update(i, f(before[i]))
    } else {
        after == before
    }
}

pub open spec fn succeeded(k: ApiKey) -> ApiKey {
    let k1 = ApiKey {
        consecutive_errors: 0,
        requests_success: (k.requests_success + 1) as u64,
        ..k
    };
    if k.status == KeyStatus::RateLimited {
        ApiKey { status: KeyStatus::Active, rate_limit_until: None, ..k1 }
    } else {
        k1
    }
}

pub open spec fn one_more_error(n: u8) -> u8 {
    if n == u8::MAX {
        n
    } else {
        (n + 1) as u8
    }
}

pub open spec fn rate_limited(k: ApiKey, until: u64) -> ApiKey {
    ApiKey {
        status: KeyStatus::RateLimited,
        rate_limit_until: Some(until),
        consecutive_errors: one_more_error(k.consecutive_errors),
        ..k
    }
}

pub open spec fn invalidated(k: ApiKey) -> ApiKey {
    ApiKey {
        status: KeyStatus::Invalid,
        consecutive_errors: one_more_error(k.consecutive_errors),
        ..k
    }
}

pub open spec fn disabled(k: ApiKey) -> ApiKey {
    ApiKey { status: KeyStatus::Disabled, ..k }
}

/// The key status a configuration value names.
pub open spec fn key_status_of(value: Seq<char>) -> Option<KeyStatus> {
    if value == "Active"@ || value == "active"@ {
        Some(KeyStatus::Active)
    } else if value == "RateLimited"@ || value == "rate_limited"@ {
        Some(KeyStatus::RateLimited)
    } else if value == "Invalid"@ || value == "invalid"@ {
        Some(KeyStatus::Invalid)
    } else if value == "Disabled"@ || value == "disabled"@ {
        Some(KeyStatus::Disabled)
    } else {
        None
    }
}

/// Why a configuration entry does not describe a key.
pub enum KeyConfigFault {
    /// The entry names this provider, which is not known.
    UnknownProvider(Seq<char>),
    /// The entry gives this status, which is not known.
    UnknownStatus(Seq<char>),
}

/// `message` reports `fault`: an unknown status as `unknown key status: `
/// and the status; an unknown provider as the `Debug` text of the parse
/// error, which for a name of plain characters is `UnknownProvider("name")`.
pub open spec fn fault_message(fault: KeyConfigFault, message: Seq<char>) -> bool {
    match fault {
        KeyConfigFault::UnknownProvider(name) => plain_text(name) ==> message == "UnknownProvider(\""@
            + name + "\")"@,
        KeyConfigFault::UnknownStatus(status) => message == "unknown key status: "@ + status,
    }
}

/// The key a configuration entry describes, or why it cannot.
pub open spec fn key_from_config(c: ApiKeyConfig) -> Result<ApiKey, KeyConfigFault> {
    match provider_of(c.provider@) {
        None => Err(KeyConfigFault::UnknownProvider(c.provider@)),
        Some(p) => match key_status_of(c.status@) {
            None => Err(KeyConfigFault::UnknownStatus(c.status@)),
            Some(s) => Ok(
                ApiKey {
                    id: c.id,
                    provider: p,
                    alias: c.alias,
                    status: s,
                    rate_limit_until: None,
                    consecutive_errors: 0,
                    last_used: None,
                    requests_total: 0,
                    requests_success: 0,
                },
            ),
        },
    }
}

/// The key `k` read from entry `c`: equal texts and the same other fields.
pub open spec fn same_key(k: ApiKey, expected: ApiKey) -> bool {
    &&& k.id@ == expected.id@
    &&& opt_text(k.alias) == opt_text(expected.alias)
    &&& k.provider == expected.provider
    &&& k.status == expected.status
    &&& k.rate_limit_until == expected.rate_limit_until
    &&& k.consecutive_errors == expected.consecutive_errors
    &&& k.last_used == expected.last_used
    &&& k.requests_total == expected.requests_total
    &&& k.requests_success == expected.requests_success
}

impl KeyStatus {
    pub fn from_config_str(value: &str) -> (s: Option<KeyStatus>)
        ensures
            s == key_status_of(value@),
    {
        if same_text(value, "Active") || same_text(value, "active") {
            Some(KeyStatus::Active)
        } else if same_text(value, "RateLimited") || same_text(value, "rate_limited") {
            Some(KeyStatus::RateLimited)
        } else if same_text(value, "Invalid") || same_text(value, "invalid") {
            Some(KeyStatus::Invalid)
        } else if same_text(value, "Disabled") || same_text(value, "disabled") {
            Some(KeyStatus::Disabled)
        } else {
            None
        }
    }
}

impl ApiKey {
    /// The key an entry of the configuration describes: a fresh, unused key.
    pub fn try_from_config(config: &ApiKeyConfig) -> (r: Result<ApiKey, String>)
        ensures
            match key_from_config(*config) {
                Ok(k) => r matches Ok(key) && same_key(key, k),
                Err(fault) => r matches Err(m) && fault_message(fault, m@),
            },
    {
        let provider = match ProviderKind::parse(config.provider.as_str()) {
            Ok(provider) => provider,
            Err(error) => {
                return Err(provider_error_text(&error));
            },
        };
        let status = match KeyStatus::from_config_str(config.status.as_str()) {
            Some(status) => status,
            None => {
                return Err(
                    String::from_str("unknown key status: ").concat(config.status.as_str()),
                );
            },
        };
        Ok(
            ApiKey {
                id: config.id.clone(),
                provider,
                alias: copy_opt_text(&config.alias),
                status,
                rate_limit_until: None,
                consecutive_errors: 0,
                last_used: None,
                requests_total: 0,
                requests_success: 0,
            },
        )
    }
}

impl View for KeyPool {
    type V = Seq<ApiKey>;

    closed spec fn view(&self) -> Seq<ApiKey> {
        self.keys@
    }
}

impl KeyPool {
    pub fn new(keys: Vec<ApiKey>) -> (p: KeyPool)
        ensures
            p@ == keys@,
    {
        KeyPool { keys }
    }

    pub fn keys(&self) -> (k: &[ApiKey])
        ensures
            k@ == self@,
    {
        self.keys.as_slice()
    }

    /// The pool of the keys an entry list of the configuration describes; the
    /// first entry that cannot be read gives the error.
    pub fn from_config(configs: &[ApiKeyConfig]) -> (r: Result<KeyPool, String>)
        ensures
            (forall|i: int| 0 <= i < configs@.len() ==> key_from_config(#[trigger] configs@[i]) is Ok)
                ==> (r matches Ok(p) && p@.len() == configs@.len() && forall|i: int|
                0 <= i < configs@.len() ==> same_key(
                #[trigger] p@[i],
                key_from_config(configs@[i])->Ok_0,
            )),
            r is Ok ==> forall|i: int|
                0 <= i < configs@.len() ==> key_from_config(#[trigger] configs@[i]) is Ok,
            r matches Err(m) ==> exists|i: int|
                0 <= i < configs@.len() && (key_from_config(#[trigger] configs@[i]) matches Err(
                    fault,
                ) && fault_message(fault, m@)) && forall|j: int|
                    0 <= j < i ==> key_from_config(#[trigger] configs@[j]) is Ok,
    {
        let mut keys: Vec<ApiKey> = Vec::new();
        let mut i: usize = 0;
        while i < configs.len()
            invariant
                i <= configs@.len(),
                keys@.len() == i,
                forall|j: int| 0 <= j < i ==> key_from_config(#[trigger] configs@[j]) is Ok,
                forall|j: int|
                    0 <= j < i ==> same_key(
                        #[trigger] keys@[j],
                        key_from_config(configs@[j])->Ok_0,
                    ),
            decreases configs.len() - i,
        {
            match ApiKey::try_from_config(&configs[i]) {
                Ok(key) => {
                    keys.push(key);
                },
                Err(message) => {
                    return Err(message);
                },
            }
            i = i + 1;
        }
        Ok(KeyPool::new(keys))
    }

    /// Hands out the active key of `provider` that was used least recently
    /// (the first such key on a tie), after rate limits that ended by `now`
    /// have been lifted; the key is marked as used at `now`.
    pub fn next_available_key(&mut self, provider: ProviderKind, now: u64) -> (r: Option<&ApiKey>)
        requires
            forall|i: int|
                #[trigger] chosen(all_expired(old(self)@, now), provider, now, i)
                    ==> old(self)@[i].requests_total < u64::MAX,
        ensures
            ({
                let ex = all_expired(old(self)@, now);
                if exists|i: int| chosen(ex, provider, now, i) {
                    exists|i: int|
                        chosen(ex, provider, now, i) && final(self)@ == ex.update(i, used(ex[i], now))
                            && r == Some(&final(self)@[i])
                } else {
                    final(self)@ == ex && r is None
                }
            }),
            forall|unused: int, recent: int|
                #![trigger old(self)@[unused], old(self)@[recent]]
                now >= 86_400_000 && 0 <= unused < old(self)@.len() && old(self)@[unused].provider
                    == provider && old(self)@[unused].status == KeyStatus::Active
                    && old(self)@[unused].last_used is None && 0 <= recent < old(self)@.len() && (
                old(self)@[recent].last_used matches Some(t) && t > now - 86_400_000) ==> {
                    &&& final(self)@[recent].last_used == old(self)@[recent].last_used
                    &&& final(self)@[recent].requests_total == old(self)@[recent].requests_total
                },
    {
        let ghost original = self@;
        self.expire_rate_limits(now);
        let ghost ex = self@;
        let fallback = match now.checked_sub(ONE_DAY_MS) {
            Some(t) => t,
            None => now,
        };
        let mut best: Option<usize> = None;
        let mut best_time: u64 = 0;
        let mut j: usize = 0;
        while j < self.keys.len()
            invariant
                j <= ex.len(),
                ex == self@,
                fallback == (if now >= ONE_DAY_MS {
                    (now - ONE_DAY_MS) as u64
                } else {
                    now
                }),
                match best {
                    Some(b) => {
                        &&& b < j
                        &&& eligible(ex[b as int], provider)
                        &&& best_time == usage_time(ex[b as int], now)
                        &&& forall|k: int|
                            0 <= k < j && eligible(#[trigger] ex[k], provider) ==> (best_time
                                < usage_time(ex[k], now) || (best_time == usage_time(ex[k], now)
                                && b <= k))
                    },
                    None => forall|k: int| 0 <= k < j ==> !eligible(#[trigger] ex[k], provider),
                },
            decreases ex.len() - j,
        {
            let key = &self.keys[j];
            if key.provider == provider && key.status == KeyStatus::Active {
                let t = match key.last_used {
                    Some(t) => t,
                    None => fallback,
                };
                let better = match best {
                    None => true,
                    Some(_) => t < best_time,
                };
                if better {
                    best = Some(j);
                    best_time = t;
                }
            }
            j = j + 1;
        }
        match best {
            None => {
                assert(!exists|i: int| chosen(ex, provider, now, i));
                None
            },
            Some(b) => {
                assert(chosen(ex, provider, now, b as int));
                assert forall|i: int| chosen(ex, provider, now, i) implies i == b as int by {}
                let key = &mut self.keys[b];
                key.last_used = Some(now);
                key.requests_total = key.requests_total + 1;
                assert(self@ =~= ex.update(b as int, used(ex[b as int], now)));
                assert forall|unused: int, recent: int|
                    #![trigger original[unused], original[recent]]
                    now >= 86_400_000 && 0 <= unused < original.len() && original[unused].provider
                        == provider && original[unused].status == KeyStatus::Active
                        && original[unused].last_used is None && 0 <= recent < original.len() && (
                    original[recent].last_used matches Some(t) && t > now - 86_400_000) implies {
                        &&& self@[recent].last_used == original[recent].last_used
                        &&& self@[recent].requests_total == original[recent].requests_total
                    } by {
                    lemma_unused_key_preferred(original, provider, now, unused, recent, b as int);
                }
                Some(&self.keys[b])
            },
        }
    }

    pub fn mark_success(&mut self, key_id: &str)
        requires
            forall|i: int|
                #[trigger] first_with_id(old(self)@, key_id@, i) ==> old(self)@[i].requests_success
                    < u64::MAX,
        ensures
            updated_first(old(self)@, final(self)@, key_id@, |k: ApiKey| succeeded(k)),
            forall|i: int|
                #[trigger] first_with_id(old(self)@, key_id@, i) ==> {
                    &&& final(self)@[i].consecutive_errors == 0
                    &&& final(self)@[i].requests_success == old(self)@[i].requests_success + 1
                },
    {
        if let Some(i) = self.find_index(key_id) {
            let key = &mut self.keys[i];
            key.consecutive_errors = 0;
            key.requests_success = key.requests_success + 1;
            if key.status == KeyStatus::RateLimited {
                key.status = KeyStatus::Active;
                key.rate_limit_until = None;
            }
        }
    }

    pub fn mark_rate_limited(&mut self, key_id: &str, until: u64)
        ensures
            updated_first(old(self)@, final(self)@, key_id@, |k: ApiKey| rate_limited(k, until)),
    {
        if let Some(i) = self.find_index(key_id) {
            let key = &mut self.keys[i];
            key.status = KeyStatus::RateLimited;
            key.rate_limit_until = Some(until);
            key.consecutive_errors = key.consecutive_errors.saturating_add(1);
        }
    }

    pub fn mark_invalid(&mut self, key_id: &str)
        ensures
            updated_first(old(self)@, final(self)@, key_id@, |k: ApiKey| invalidated(k)),
    {
        if let Some(i) = self.find_index(key_id) {
            let key = &mut self.keys[i];
            key.status = KeyStatus::Invalid;
            key.consecutive_errors = key.consecutive_errors.saturating_add(1);
        }
    }

    pub fn disable(&mut self, key_id: &str)
        ensures
            updated_first(old(self)@, final(self)@, key_id@, |k: ApiKey| disabled(k)),
    {
        if let Some(i) = self.find_index(key_id) {
            let key = &mut self.keys[i];
            key.status = KeyStatus::Disabled;
        }
    }

    /// Lifts every rate limit that has ended by `now`.
    fn expire_rate_limits(&mut self, now: u64)
        ensures
            final(self)@ == all_expired(old(self)@, now),
    {
        let ghost before = self@;
        let mut i: usize = 0;
        while i < self.keys.len()
            invariant
                i <= before.len(),
                self@.len() == before.len(),
                forall|j: int| 0 <= j < i ==> self@[j] == expired(#[trigger] before[j], now),
                forall|j: int| i <= j < before.len() ==> self@[j] == before[j],
            decreases before.len() - i,
        {
            let key = &mut self.keys[i];
            let lapsed = match key.rate_limit_until {
                Some(until) => until <= now,
                None => true,
            };
            if key.status == KeyStatus::RateLimited && lapsed {
                key.status = KeyStatus::Active;
                key.rate_limit_until = None;
            }
            i = i + 1;
        }
        assert(self@ =~= all_expired(before, now));
    }

    /// The position of the first key with id `key_id`.
    fn find_index(&self, key_id: &str) -> (r: Option<usize>)
        ensures
            match r {
                Some(i) => first_with_id(self@, key_id@, i as int),
                None => !has_id(self@, key_id@),
            },
    {
        let mut i: usize = 0;
        while i < self.keys.len()
            invariant
                i <= self@.len(),
                forall|j: int| 0 <= j < i ==> (#[trigger] self@[j]).id@ != key_id@,
            decreases self.keys.len() - i,
        {
            if same_text(self.keys[i].id.as_str(), key_id) {
                return Some(i);
            }
            i = i + 1;
        }
        None
    }
}

} // verus!

verus! {

/// The key handed out belongs to the provider asked for and is usable at
/// `now`: it was active, or rate limited with a cooldown that has ended.
/// Invalid and disabled keys, and keys still cooling down, are never handed out.
pub proof fn lemma_handed_out_key_is_usable(
    keys: Seq<ApiKey>,
    provider: ProviderKind,
    now: u64,
    i: int,
)
    requires
        chosen(all_expired(keys, now), provider, now, i),
    ensures
        keys[i].provider == provider,
        keys[i].status == KeyStatus::Active || (keys[i].status == KeyStatus::RateLimited
            && match keys[i].rate_limit_until {
            Some(until) => until <= now,
            None => true,
        }),
{
    assert(all_expired(keys, now)[i] == expired(keys[i], now));
}

/// A key that was never used is handed out before any key used within the
/// last day: an unused key counts as used one day (86 400 000 ms) before
/// `now`. So whatever key `next_available_key` picks (the `chosen` one of the
/// keys with expired rate limits lifted), it is not a key of the provider
/// that was used less than a day ago while an unused active key of the
/// provider waits.
pub proof fn lemma_unused_key_preferred(
    keys: Seq<ApiKey>,
    provider: ProviderKind,
    now: u64,
    unused: int,
    recent: int,
    picked: int,
)
    requires
        now >= 86_400_000,
        0 <= unused < keys.len(),
        keys[unused].provider == provider,
        keys[unused].status == KeyStatus::Active,
        keys[unused].last_used is None,
        0 <= recent < keys.len(),
        keys[recent].last_used matches Some(t) && t > now - 86_400_000,
        chosen(all_expired(keys, now), provider, now, picked),
    ensures
        picked != recent,
{
    let ex = all_expired(keys, now);
    assert(ex[unused] == keys[unused]);
    assert(eligible(ex[unused], provider));
    assert(ex[recent].last_used == keys[recent].last_used);
}

/// Every status is read from both its CamelCase and its snake_case spelling.
pub proof fn lemma_status_spellings()
    ensures
        key_status_of("Active"@) == Some(KeyStatus::Active),
        key_status_of("active"@) == Some(KeyStatus::Active),
        key_status_of("RateLimited"@) == Some(KeyStatus::RateLimited),
        key_status_of("rate_limited"@) == Some(KeyStatus::RateLimited),
        key_status_of("Invalid"@) == Some(KeyStatus::Invalid),
        key_status_of("invalid"@) == Some(KeyStatus::Invalid),
        key_status_of("Disabled"@) == Some(KeyStatus::Disabled),
        key_status_of("disabled"@) == Some(KeyStatus::Disabled),
{
    reveal_strlit("Active");
    reveal_strlit("active");
    reveal_strlit("RateLimited");
    reveal_strlit("rate_limited");
    reveal_strlit("Invalid");
    reveal_strlit("invalid");
    reveal_strlit("Disabled");
    reveal_strlit("disabled");
    assert("Active"@.len() == 6);
    assert("active"@.len() == 6);
    assert("RateLimited"@.len() == 11);
    assert("rate_limited"@.len() == 12);
    assert("Invalid"@.len() == 7);
    assert("invalid"@.len() == 7);
    assert("Disabled"@.len() == 8);
    assert("disabled"@.len() == 8);
}

/// A success clears the error count of the key it is for, whatever the
/// key's status, and counts one more successful request; a rate-limited key
/// is active again and other statuses stay.
pub proof fn lemma_success_resets_errors(
    before: Seq<ApiKey>,
    after: Seq<ApiKey>,
    id: Seq<char>,
    i: int,
)
    requires
        updated_first(before, after, id, |k: ApiKey| succeeded(k)),
        first_with_id(before, id, i),
    ensures
        after[i].consecutive_errors == 0,
        after[i].requests_success == before[i].requests_success + 1 || before[i].requests_success
            == u64::MAX,
        after[i].status == (if before[i].status == KeyStatus::RateLimited {
            KeyStatus::Active
        } else {
            before[i].status
        }),
{
    assert(has_id(before, id));
    let k = choose|k: int| first_with_id(before, id, k) && after == before.update(
        k,
        succeeded(before[k]),
    );
    assert(k == i) by {
        if k < i {
            assert(before[k].id@ != id);
        } else if i < k {
            assert(before[i].id@ != id);
        }
    }
}

} // verus!
