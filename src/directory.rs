use crate::accounts::ParticipantEntry;
use crate::schemas::NetworkRole;
use crate::table::{key_view, KeyedTable};
use vstd::prelude::*;

verus! {

/// The protocol code of a network role.
pub open spec fn role_code(r: NetworkRole) -> Seq<char> {
    match r {
        NetworkRole::Bap => "BAP"@,
        NetworkRole::Bpp => "BPP"@,
    }
}

pub fn role_code_string(r: NetworkRole) -> (s: String)
    ensures
        s@ == role_code(r),
{
    proof {
        reveal_strlit("BAP");
        reveal_strlit("BPP");
    }
    match r {
        NetworkRole::Bap => String::from_str("BAP"),
        NetworkRole::Bpp => String::from_str("BPP"),
    }
}

/// The key that participant entries are unique on: subscriber id and role.
pub open spec fn participant_key(subscriber_id: Seq<char>, role: NetworkRole) -> Seq<Seq<char>> {
    seq![subscriber_id, role_code(role)]
}

/// A local hit: the stored entry for subscriber and role, when it is
/// registered for the domain asked about.
pub open spec fn local_lookup(
    m: Map<Seq<Seq<char>>, ParticipantEntry>,
    subscriber_id: Seq<char>,
    role: NetworkRole,
    domain: Seq<char>,
) -> Option<ParticipantEntry> {
    let k = participant_key(subscriber_id, role);
    if m.contains_key(k) && m[k].domain@ == domain {
        Some(m[k])
    } else {
        None
    }
}

/// The store after a registry answer: a found entry is written through,
/// unless an entry for its subscriber and role is there already.
pub open spec fn after_fetch(m: Map<Seq<Seq<char>>, ParticipantEntry>, fetched: Option<ParticipantEntry>) -> Map<
    Seq<Seq<char>>,
    ParticipantEntry,
> {
    match fetched {
        Some(e) => {
            let k = participant_key(e.subscriber_id@, e.role);
            if m.contains_key(k) {
                m
            } else {
                m.insert(k, e)
            }
        },
        None => m,
    }
}

/// Participant entries cached from the registry; never deleted, and not
/// refreshed on a local hit.
pub struct ParticipantDirectory {
    entries: KeyedTable<ParticipantEntry>,
}

pub fn copy_entry(e: &ParticipantEntry) -> (r: ParticipantEntry)
    ensures
        r == *e,
{
    ParticipantEntry {
        subscriber_id: e.subscriber_id.clone(),
        role: e.role,
        domain: e.domain.clone(),
        subscriber_uri: e.subscriber_uri.clone(),
        signing_public_key: e.signing_public_key.clone(),
        encr_public_key: e.encr_public_key.clone(),
        br_id: e.br_id.clone(),
        uk_id: e.uk_id.clone(),
    }
}

impl ParticipantDirectory {
    pub closed spec fn wf(&self) -> bool {
        self.entries.wf()
    }

    pub closed spec fn view(&self) -> Map<Seq<Seq<char>>, ParticipantEntry> {
        self.entries.view()
    }

    pub fn new() -> (r: ParticipantDirectory)
        ensures
            r.wf(),
            r.view() == Map::<Seq<Seq<char>>, ParticipantEntry>::empty(),
    {
        ParticipantDirectory { entries: KeyedTable::new() }
    }

    /// The first tier of `lookup`: the local store. `None` means that the
    /// registry has to be asked.
    pub fn lookup_local(&self, subscriber_id: &String, role: NetworkRole, domain: &String) -> (r: Option<
        ParticipantEntry,
    >)
        requires
            self.wf(),
        ensures
            r == local_lookup(self.view(), subscriber_id@, role, domain@),
    {
        let key: Vec<String> = vec![subscriber_id.clone(), role_code_string(role)];
        proof {
            assert(key_view(key@) =~= participant_key(subscriber_id@, role));
        }
        match self.entries.get(&key) {
            Some(e) => if e.domain == *domain {
                Some(copy_entry(e))
            } else {
                None
            },
            None => None,
        }
    }

    /// The second tier: takes what the registry answered (its first
    /// record, if any), writes it through, and returns it.
    pub fn complete_lookup(&mut self, fetched: Option<ParticipantEntry>) -> (r: Option<ParticipantEntry>)
        requires
            old(self).wf(),
        ensures
            final(self).wf(),
            final(self).view() == after_fetch(old(self).view(), fetched),
            r == fetched,
    {
        match fetched {
            Some(e) => {
                let key: Vec<String> = vec![e.subscriber_id.clone(), role_code_string(e.role)];
                proof {
                    assert(key_view(key@) =~= participant_key(e.subscriber_id@, e.role));
                }
                if self.entries.get(&key).is_none() {
                    self.entries.upsert(key, copy_entry(&e));
                }
                Some(e)
            },
            None => None,
        }
    }
}

/// After a cold lookup that the registry answered, a warm lookup on the same
/// inputs returns from the local store exactly what the registry returned.
/// The store must hold no entry for that subscriber and role (under another
/// domain): the write-through is skipped on such a conflict.
pub proof fn lemma_cache_cold_then_warm(
    m: Map<Seq<Seq<char>>, ParticipantEntry>,
    subscriber_id: Seq<char>,
    role: NetworkRole,
    domain: Seq<char>,
    fetched: ParticipantEntry,
)
    requires
        !m.contains_key(participant_key(subscriber_id, role)),
        fetched.subscriber_id@ == subscriber_id,
        fetched.role == role,
        fetched.domain@ == domain,
    ensures
        local_lookup(m, subscriber_id, role, domain) is None,
        local_lookup(after_fetch(m, Some(fetched)), subscriber_id, role, domain) == Some(fetched),
{
}

/// A warm lookup does not change the store, so repeating it keeps returning
/// the same entry.
pub proof fn lemma_cache_warm_stable(
    m: Map<Seq<Seq<char>>, ParticipantEntry>,
    subscriber_id: Seq<char>,
    role: NetworkRole,
    domain: Seq<char>,
    fetched: Option<ParticipantEntry>,
)
    requires
        local_lookup(m, subscriber_id, role, domain) is Some,
        fetched is Some ==> fetched->0.subscriber_id@ == subscriber_id && fetched->0.role == role,
    ensures
        after_fetch(m, fetched) == m,
        local_lookup(after_fetch(m, fetched), subscriber_id, role, domain) == local_lookup(
            m,
            subscriber_id,
            role,
            domain,
        ),
{
}

} // verus!
