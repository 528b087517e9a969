use vstd::prelude::*;

pub mod errors;
pub mod validate;

verus! {

use vstd::string::StringExecFns;
use crate::errors::VibinRemoteError;
use crate::validate::{CanonicalKey, key_of_name, validate_key_name};

/// The action configured for one key: the URL path fragment to invoke
/// when that key is released.
#[derive(Debug)]
pub struct KeyConfig {
    pub url: String,
}

impl Clone for KeyConfig {
    fn clone(&self) -> (res: Self)
        ensures
            res == *self,
    {
        KeyConfig { url: self.url.clone() }
    }
}

/// The application configuration: the host to send commands to, the
/// request timeout in whole seconds (default 1 when absent), and the
/// configured key-name to action mapping, in configuration order.
#[derive(Debug)]
pub struct AppConfig {
    pub vibin: String,
    pub request_timeout: Option<u8>,
    pub keymap: Vec<(String, KeyConfig)>,
}

/// The command-line arguments: the configuration file name.
#[derive(Debug)]
pub struct AppArgs {
    pub config: String,
}

/// Default HTTP request timeout, in whole seconds, used when the
/// configuration does not specify one.
pub fn default_url_timeout() -> (r: Option<u8>)
    ensures
        r == Some(1u8),
{
    Some(1)
}

/// The effective request timeout in seconds: the configured value, or 1
/// when the configuration does not specify one.
pub fn request_timeout_seconds(request_timeout: Option<u8>) -> (r: u64)
    ensures
        match request_timeout {
            Some(s) => r == s as u64,
            None => r == 1,
        },
{
    match request_timeout {
        Some(s) => s as u64,
        None => 1,
    }
}

/// No two entries share a canonical key.
pub open spec fn unique_keys(s: Seq<(CanonicalKey, KeyConfig)>) -> bool {
    forall|i: int, j: int| 0 <= i < j < s.len() ==> s[i].0 != s[j].0
}

/// The mapping an entry sequence denotes: each entry binds its key to
/// its URL path, later entries overwriting earlier ones.
pub open spec fn entries_map(s: Seq<(CanonicalKey, KeyConfig)>) -> Map<CanonicalKey, Seq<char>>
    decreases s.len(),
{
    if s.len() == 0 {
        Map::empty()
    } else {
        entries_map(s.drop_last()).insert(s.last().0, s.last().1.url@)
    }
}

proof fn lemma_entries_map_contains(s: Seq<(CanonicalKey, KeyConfig)>, k: CanonicalKey)
    ensures
        entries_map(s).contains_key(k) <==> exists|i: int| 0 <= i < s.len() && s[i].0 == k,
    decreases s.len(),
{
    if s.len() == 0 {
    } else {
        lemma_entries_map_contains(s.drop_last(), k);
        assert(forall|a: int| 0 <= a < s.len() - 1 ==> s.drop_last()[a] == s[a]);
        if s.last().0 == k {
            assert(s[s.len() - 1].0 == k);
        } else {
            if exists|i: int| 0 <= i < s.len() && s[i].0 == k {
                let i = choose|i: int| 0 <= i < s.len() && s[i].0 == k;
                assert(i < s.len() - 1);
                assert(s.drop_last()[i].0 == k);
            }
        }
    }
}

proof fn lemma_entries_map_index(s: Seq<(CanonicalKey, KeyConfig)>, i: int)
    requires
        unique_keys(s),
        0 <= i < s.len(),
    ensures
        entries_map(s).contains_key(s[i].0),
        entries_map(s)[s[i].0] == s[i].1.url@,
    decreases s.len(),
{
    if i == s.len() - 1 {
    } else {
        assert(forall|a: int| 0 <= a < s.len() - 1 ==> s.drop_last()[a] == s[a]);
        lemma_entries_map_index(s.drop_last(), i);
        assert(s.last().0 != s[i].0);
    }
}

proof fn lemma_entries_map_update(s: Seq<(CanonicalKey, KeyConfig)>, i: int, cfg: KeyConfig)
    requires
        unique_keys(s),
        0 <= i < s.len(),
    ensures
        entries_map(s.update(i, (s[i].0, cfg))) == entries_map(s).insert(s[i].0, cfg.url@),
    decreases s.len(),
{
    let k = s[i].0;
    let t = s.update(i, (k, cfg));
    if i == s.len() - 1 {
        assert(t.drop_last() =~= s.drop_last());
        assert(t.last() == (k, cfg));
        assert(entries_map(t) =~= entries_map(s).insert(k, cfg.url@));
    } else {
        assert(t.drop_last() =~= s.drop_last().update(i, (k, cfg)));
        assert(forall|a: int| 0 <= a < s.len() - 1 ==> s.drop_last()[a] == s[a]);
        assert(s.drop_last()[i] == s[i]);
        lemma_entries_map_update(s.drop_last(), i, cfg);
        assert(t.last() == s.last());
        assert(s.last().0 != k);
        assert(entries_map(t) =~= entries_map(s).insert(k, cfg.url@));
    }
}

proof fn lemma_entries_map_len(s: Seq<(CanonicalKey, KeyConfig)>)
    requires
        unique_keys(s),
    ensures
        entries_map(s).dom().finite(),
        entries_map(s).dom().len() == s.len(),
    decreases s.len(),
{
    if s.len() == 0 {
        assert(entries_map(s).dom() =~= Set::<CanonicalKey>::empty());
    } else {
        assert(forall|a: int| 0 <= a < s.len() - 1 ==> s.drop_last()[a] == s[a]);
        lemma_entries_map_len(s.drop_last());
        lemma_entries_map_contains(s.drop_last(), s.last().0);
        assert(!entries_map(s.drop_last()).contains_key(s.last().0)) by {
            if exists|i: int| 0 <= i < s.len() - 1 && s.drop_last()[i].0 == s.last().0 {
                let i = choose|i: int| 0 <= i < s.len() - 1 && s.drop_last()[i].0 == s.last().0;
                assert(s[i].0 == s[s.len() - 1].0);
            }
        }
        assert(entries_map(s).dom() =~= entries_map(s.drop_last()).dom().insert(s.last().0));
    }
}

/// The immutable mapping from canonical key to action, built once at
/// startup and read-only afterwards. Each registered key has exactly
/// one entry.
#[derive(Debug)]
pub struct KeyActionTable {
    entries: Vec<(CanonicalKey, KeyConfig)>,
}

impl View for KeyActionTable {
    type V = Map<CanonicalKey, Seq<char>>;

    closed spec fn view(&self) -> Map<CanonicalKey, Seq<char>> {
        entries_map(self.entries@)
    }
}

impl KeyActionTable {
    /// Well-formed: no canonical key occurs in two entries.
    pub closed spec fn wf(&self) -> bool {
        unique_keys(self.entries@)
    }

    /// The empty table.
    pub fn empty() -> (t: Self)
        ensures
            t.wf(),
            t@ == Map::<CanonicalKey, Seq<char>>::empty(),
    {
        let t = KeyActionTable { entries: Vec::new() };
        t
    }

    /// The number of registered keys.
    pub fn len(&self) -> (n: usize)
        requires
            self.wf(),
        ensures
            n == self@.dom().len(),
    {
        proof {
            lemma_entries_map_len(self.entries@);
        }
        self.entries.len()
    }

    /// Register `cfg` for key `k`, overwriting any earlier entry for the
    /// same key; exactly one entry per key ever exists.
    pub fn insert(&mut self, k: CanonicalKey, cfg: KeyConfig)
        requires
            old(self).wf(),
        ensures
            final(self).wf(),
            final(self)@ == old(self)@.insert(k, cfg.url@),
    {
        let n = self.entries.len();
        let mut i: usize = 0;
        while i < n
            invariant
                i <= n,
                n == self.entries@.len(),
                self == old(self),
                self.wf(),
                forall|l: int| 0 <= l < i ==> self.entries@[l].0 != k,
            decreases n - i,
        {
            if self.entries[i].0 == k {
                proof {
                    lemma_entries_map_update(self.entries@, i as int, cfg);
                }
                self.entries[i] = (k, cfg);
                proof {
                    assert(forall|a: int|
                        0 <= a < self.entries@.len() ==> self.entries@[a].0 == old(
                            self,
                        ).entries@[a].0);
                }
                return ;
            }
            i += 1;
        }
        self.entries.push((k, cfg));
        proof {
            assert(self.entries@.drop_last() =~= old(self).entries@);
            assert(self.entries@.last() == (k, cfg));
        }
    }

    /// Look up the action registered for key `k`, if any.
    pub fn get(&self, k: CanonicalKey) -> (r: Option<&KeyConfig>)
        requires
            self.wf(),
        ensures
            match r {
                Some(cfg) => self@.contains_key(k) && cfg.url@ == self@[k],
                None => !self@.contains_key(k),
            },
    {
        let n = self.entries.len();
        let mut i: usize = 0;
        while i < n
            invariant
                i <= n,
                n == self.entries@.len(),
                self.wf(),
                forall|l: int| 0 <= l < i ==> self.entries@[l].0 != k,
            decreases n - i,
        {
            let pair = &self.entries[i];
            if pair.0 == k {
                proof {
                    lemma_entries_map_index(self.entries@, i as int);
                }
                return Some(&pair.1);
            }
            i += 1;
        }
        proof {
            lemma_entries_map_contains(self.entries@, k);
        }
        None
    }
}

/// Every configured name is a recognized key name.
pub open spec fn keymap_all_valid(km: Seq<(String, KeyConfig)>) -> bool {
    forall|i: int| 0 <= i < km.len() ==> key_of_name(km[i].0@) is Some
}

/// The table a keymap denotes: each entry whose name validates binds
/// its canonical key to its URL path, later entries overwriting earlier
/// ones that validate to the same key.
pub open spec fn built_table(km: Seq<(String, KeyConfig)>) -> Map<CanonicalKey, Seq<char>>
    decreases km.len(),
{
    if km.len() == 0 {
        Map::empty()
    } else {
        let rest = built_table(km.drop_last());
        match key_of_name(km.last().0@) {
            Some(k) => rest.insert(k, km.last().1.url@),
            None => rest,
        }
    }
}

/// Build the key-action table from the configuration: validate every
/// configured name and register its action. Construction is
/// all-or-nothing: the first invalid name aborts with `InvalidKeyName`
/// naming that entry, and no table is returned.
pub fn generate_key_to_keyconfig(app_config: &AppConfig) -> (r: Result<
    KeyActionTable,
    VibinRemoteError,
>)
    ensures
        match r {
            Ok(t) => {
                &&& keymap_all_valid(app_config.keymap@)
                &&& t.wf()
                &&& t@ == built_table(app_config.keymap@)
            },
            Err(e) => {
                &&& !keymap_all_valid(app_config.keymap@)
                &&& exists|i: int|
                    {
                        &&& 0 <= i < app_config.keymap@.len()
                        &&& key_of_name(#[trigger] app_config.keymap@[i].0@) is None
                        &&& forall|l: int|
                            0 <= l < i ==> key_of_name(#[trigger] app_config.keymap@[l].0@) is Some
                        &&& e matches VibinRemoteError::InvalidKeyName { key_name } && key_name@
                            == app_config.keymap@[i].0@
                    }
            },
        },
{
    let ghost km = app_config.keymap@;
    let mut table = KeyActionTable::empty();
    let n = app_config.keymap.len();
    let mut i: usize = 0;
    while i < n
        invariant
            i <= n,
            n == km.len(),
            km == app_config.keymap@,
            table.wf(),
            table@ == built_table(km.take(i as int)),
            forall|l: int| 0 <= l < i ==> key_of_name(#[trigger] km[l].0@) is Some,
        decreases n - i,
    {
        let pair = &app_config.keymap[i];
        match validate_key_name(pair.0.as_str()) {
            Ok(k) => {
                table.insert(k, pair.1.clone());
                proof {
                    assert(km.take(i + 1).drop_last() =~= km.take(i as int));
                    assert(km.take(i + 1).last() == km[i as int]);
                }
            },
            Err(e) => {
                return Err(e);
            },
        }
        i += 1;
    }
    proof {
        assert(km.take(n as int) =~= km);
    }
    Ok(table)
}

/// One observed platform key event, as the capture loop sees it: a key
/// press, a key release, or any other event kind.
#[derive(Clone, Copy, Debug, PartialEq, Eq, Structural)]
pub enum KeyEvent {
    Press(CanonicalKey),
    Release(CanonicalKey),
    Other,
}

/// The fully resolved URL dispatched for a key: scheme, configured
/// host, and the key's configured path.
pub open spec fn full_url(host: Seq<char>, path: Seq<char>) -> Seq<char> {
    "http://"@ + host + path
}

/// Decide what one key event dispatches: a release of a registered key
/// yields exactly one envelope holding the resolved URL; a press, any
/// other event kind, and a release of an unregistered key yield
/// nothing.
pub fn process_key_event(table: &KeyActionTable, vibin: &str, event: KeyEvent) -> (r: Option<
    String,
>)
    requires
        table.wf(),
    ensures
        match event {
            KeyEvent::Release(k) => match r {
                Some(url) => table@.contains_key(k) && url@ == full_url(vibin@, table@[k]),
                None => !table@.contains_key(k),
            },
            _ => r is None,
        },
{
    match event {
        KeyEvent::Release(k) => match table.get(k) {
            Some(key_config) => {
                let mut url = String::from_str("http://");
                url.append(vibin);
                url.append(key_config.url.as_str());
                Some(url)
            },
            None => None,
        },
        _ => None,
    }
}

/// The outcome of one dispatched HTTP request, as the worker classifies
/// it: delivered (status 200), an HTTP error carrying the status code,
/// or a transport-level failure.
#[derive(Clone, Copy, Debug, PartialEq, Eq, Structural)]
pub enum DispatchOutcome {
    Delivered,
    HttpError(u16),
    TransportError,
}

impl DispatchOutcome {
    /// Whether this outcome is reported as an error; delivery is silent.
    pub fn is_failure(&self) -> (r: bool)
        ensures
            r == !(self is Delivered),
    {
        match self {
            DispatchOutcome::Delivered => false,
            _ => true,
        }
    }
}

/// Classify the result of one HTTP POST: `status` is the response
/// status code, or `None` on a transport-level failure. Only status 200
/// counts as delivered; every other outcome is an error to report, and
/// never stops the worker.
pub fn classify_response(status: Option<u16>) -> (r: DispatchOutcome)
    ensures
        r == match status {
            Some(code) => if code == 200 {
                DispatchOutcome::Delivered
            } else {
                DispatchOutcome::HttpError(code)
            },
            None => DispatchOutcome::TransportError,
        },
{
    match status {
        Some(code) => if code == 200 {
            DispatchOutcome::Delivered
        } else {
            DispatchOutcome::HttpError(code)
        },
        None => DispatchOutcome::TransportError,
    }
}

/// Law: the built table's key set is exactly the set of canonical keys
/// reachable from configured names that validate.
pub proof fn lemma_built_table_dom(km: Seq<(String, KeyConfig)>, k: CanonicalKey)
    ensures
        built_table(km).contains_key(k) <==> exists|i: int|
            0 <= i < km.len() && key_of_name(#[trigger] km[i].0@) == Some(k),
    decreases km.len(),
{
    if km.len() == 0 {
    } else {
        lemma_built_table_dom(km.drop_last(), k);
        assert(forall|a: int| 0 <= a < km.len() - 1 ==> km.drop_last()[a] == km[a]);
        if key_of_name(km.last().0@) == Some(k) {
            assert(key_of_name(km[km.len() - 1].0@) == Some(k));
        } else {
            if exists|i: int| 0 <= i < km.len() && key_of_name(#[trigger] km[i].0@) == Some(k) {
                let i = choose|i: int|
                    0 <= i < km.len() && key_of_name(#[trigger] km[i].0@) == Some(k);
                assert(i < km.len() - 1);
                assert(key_of_name(km.drop_last()[i].0@) == Some(k));
            }
        }
    }
}

/// Law: the built table never has more entries than the configuration
/// supplied; name collisions can only make it smaller.
pub proof fn lemma_built_table_size(km: Seq<(String, KeyConfig)>)
    ensures
        built_table(km).dom().finite(),
        built_table(km).dom().len() <= km.len(),
    decreases km.len(),
{
    if km.len() == 0 {
        assert(built_table(km).dom() =~= Set::<CanonicalKey>::empty());
    } else {
        lemma_built_table_size(km.drop_last());
        match key_of_name(km.last().0@) {
            Some(k) => {
                assert(built_table(km).dom() =~= built_table(km.drop_last()).dom().insert(k));
            },
            None => {},
        }
    }
}

/// Law: when two configured entries validate to the same canonical key
/// and the later of them is the last such entry, the built table binds
/// that key to the later entry's path — whichever descriptor was
/// processed last wins, and the key is bound exactly once.
pub proof fn lemma_last_name_wins(km: Seq<(String, KeyConfig)>, i: int, j: int, k: CanonicalKey)
    requires
        0 <= i < j < km.len(),
        key_of_name(km[i].0@) == Some(k),
        key_of_name(km[j].0@) == Some(k),
        forall|l: int| j < l < km.len() ==> key_of_name(#[trigger] km[l].0@) != Some(k),
    ensures
        built_table(km).contains_key(k),
        built_table(km)[k] == km[j].1.url@,
    decreases km.len(),
{
    if j == km.len() - 1 {
    } else {
        assert(forall|a: int| 0 <= a < km.len() - 1 ==> km.drop_last()[a] == km[a]);
        lemma_last_name_wins(km.drop_last(), i, j, k);
        assert(key_of_name(km.last().0@) != Some(k));
    }
}

} // verus!
