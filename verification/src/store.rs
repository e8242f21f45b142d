//! The revocation store: for each known identity, the one refresh token that is
//! current, or none.
//!
//! The store kept here lives in memory. A store kept elsewhere does the same
//! three operations; [`set_outcome`] and [`rotate_outcome`] read what a
//! conditional update there reports.
use crate::error::Failure;
use vstd::prelude::*;

verus! {

/// What a store holds: the known identities, each with its current refresh token.
pub type Ledger = Map<i32, Option<Seq<char>>>;

/// Whether some identity currently holds the token.
pub open spec fn holds(ledger: Ledger, token: Seq<char>) -> bool {
    exists|id: i32| #[trigger] ledger.contains_key(id) && ledger[id] == Some(token)
}

/// The outcome of setting the token of an identity: it must be known.
pub open spec fn set_result(ledger: Ledger, id: i32) -> Result<(), Failure> {
    if ledger.contains_key(id) {
        Ok(())
    } else {
        Err(Failure::NotFound)
    }
}

/// The store after setting the token of an identity.
pub open spec fn after_set(ledger: Ledger, id: i32, token: Seq<char>) -> Ledger {
    if ledger.contains_key(id) {
        ledger.insert(id, Some(token))
    } else {
        ledger
    }
}

/// Whether `old` is the current token of the identity.
pub open spec fn is_current(ledger: Ledger, id: i32, old: Seq<char>) -> bool {
    ledger.contains_key(id) && ledger[id] == Some(old)
}

/// The outcome of rotating away from `old`: it must be the current token.
pub open spec fn rotate_result(ledger: Ledger, id: i32, old: Seq<char>) -> Result<(), Failure> {
    if is_current(ledger, id, old) {
        Ok(())
    } else {
        Err(Failure::Conflict)
    }
}

/// The store after an attempt to rotate from `old` to `new`: changed only where
/// `old` was current.
pub open spec fn after_rotate(ledger: Ledger, id: i32, old: Seq<char>, new: Seq<char>) -> Ledger {
    if is_current(ledger, id, old) {
        ledger.insert(id, Some(new))
    } else {
        ledger
    }
}

/// Reads the number of rows that an update of one identity's token changed:
/// none means that the identity is unknown.
pub fn set_outcome(rows_affected: u64) -> (outcome: Result<(), Failure>)
    ensures
        outcome == if rows_affected == 0 {
            Err::<(), Failure>(Failure::NotFound)
        } else {
            Ok::<(), Failure>(())
        },
{
    if rows_affected == 0 {
        Err(Failure::NotFound)
    } else {
        Ok(())
    }
}

/// Reads the number of rows that a rotation changed: none means that the token
/// presented was no longer current.
pub fn rotate_outcome(rows_affected: u64) -> (outcome: Result<(), Failure>)
    ensures
        outcome == if rows_affected == 0 {
            Err::<(), Failure>(Failure::Conflict)
        } else {
            Ok::<(), Failure>(())
        },
{
    if rows_affected == 0 {
        Err(Failure::Conflict)
    } else {
        Ok(())
    }
}

/// One identity and its current refresh token.
struct Record {
    id: i32,
    token: Option<String>,
}

spec fn token_view(token: Option<String>) -> Option<Seq<char>> {
    match token {
        Some(t) => Some(t@),
        None => None,
    }
}

spec fn is_at(records: Seq<Record>, i: int, id: i32) -> bool {
    0 <= i < records.len() && records[i].id == id
}

spec fn distinct(records: Seq<Record>) -> bool {
    forall|i: int, j: int|
        0 <= i < j < records.len() ==> (#[trigger] records[i]).id != (#[trigger] records[j]).id
}

spec fn ledger_of(records: Seq<Record>) -> Ledger {
    Map::new(
        |id: i32| exists|i: int| is_at(records, i, id),
        |id: i32| token_view(records[choose|i: int| is_at(records, i, id)].token),
    )
}

proof fn lemma_lookup(records: Seq<Record>, i: int)
    requires
        distinct(records),
        0 <= i < records.len(),
    ensures
        ledger_of(records).contains_key(records[i].id),
        ledger_of(records)[records[i].id] == token_view(records[i].token),
{
    let id = records[i].id;
    assert(is_at(records, i, id));
    let j = choose|j: int| is_at(records, j, id);
    assert(is_at(records, j, id));
    assert(j == i) by {
        if j < i {
            assert(records[j].id != records[i].id);
        } else if i < j {
            assert(records[i].id != records[j].id);
        }
    }
}

proof fn lemma_update(records: Seq<Record>, i: int, record: Record)
    requires
        distinct(records),
        0 <= i < records.len(),
        record.id == records[i].id,
    ensures
        distinct(records.update(i, record)),
        ledger_of(records.update(i, record)) == ledger_of(records).insert(
            record.id,
            token_view(record.token),
        ),
{
    let after = records.update(i, record);
    assert(distinct(after)) by {
        assert forall|a: int, b: int| 0 <= a < b < after.len() implies (#[trigger] after[a]).id
            != (#[trigger] after[b]).id by {
            assert(records[a].id != records[b].id);
        }
    }
    let want = ledger_of(records).insert(record.id, token_view(record.token));
    assert forall|id: i32| ledger_of(after).contains_key(id) <==> want.contains_key(id) by {
        if ledger_of(after).contains_key(id) {
            let k = choose|k: int| is_at(after, k, id);
            assert(is_at(records, k, id));
        }
        if want.contains_key(id) {
            if id == record.id {
                assert(is_at(after, i, id));
            } else {
                let k = choose|k: int| is_at(records, k, id);
                assert(is_at(after, k, id));
            }
        }
    }
    assert forall|id: i32| ledger_of(after).contains_key(id) implies ledger_of(after)[id]
        == want[id] by {
        let k = choose|k: int| is_at(after, k, id);
        lemma_lookup(after, k);
        if id != record.id {
            assert(k != i);
            lemma_lookup(records, k);
        } else {
            assert(is_at(after, i, id));
            lemma_lookup(after, i);
        }
    }
    assert(ledger_of(after) =~= want);
}

proof fn lemma_push(records: Seq<Record>, record: Record)
    requires
        distinct(records),
        !ledger_of(records).contains_key(record.id),
    ensures
        distinct(records.push(record)),
        ledger_of(records.push(record)) == ledger_of(records).insert(
            record.id,
            token_view(record.token),
        ),
{
    let after = records.push(record);
    assert(distinct(after)) by {
        assert forall|a: int, b: int| 0 <= a < b < after.len() implies (#[trigger] after[a]).id
            != (#[trigger] after[b]).id by {
            if b < records.len() {
                assert(records[a].id != records[b].id);
            } else {
                assert(is_at(records, a, records[a].id));
            }
        }
    }
    let last = records.len() as int;
    let want = ledger_of(records).insert(record.id, token_view(record.token));
    assert forall|id: i32| ledger_of(after).contains_key(id) <==> want.contains_key(id) by {
        if ledger_of(after).contains_key(id) {
            let k = choose|k: int| is_at(after, k, id);
            if k < last {
                assert(is_at(records, k, id));
            }
        }
        if want.contains_key(id) {
            if id == record.id {
                assert(is_at(after, last, id));
            } else {
                let k = choose|k: int| is_at(records, k, id);
                assert(is_at(after, k, id));
            }
        }
    }
    assert forall|id: i32| ledger_of(after).contains_key(id) implies ledger_of(after)[id]
        == want[id] by {
        let k = choose|k: int| is_at(after, k, id);
        lemma_lookup(after, k);
        if k < last {
            assert(is_at(records, k, id));
            lemma_lookup(records, k);
        }
    }
    assert(ledger_of(after) =~= want);
}

/// A revocation store in memory.
pub struct RevocationStore {
    records: Vec<Record>,
}

impl View for RevocationStore {
    type V = Ledger;

    closed spec fn view(&self) -> Ledger {
        ledger_of(self.records@)
    }
}

impl RevocationStore {
    /// No identity is recorded twice.
    pub closed spec fn wf(&self) -> bool {
        distinct(self.records@)
    }

    /// A store that knows no identity.
    pub fn new() -> (store: RevocationStore)
        ensures
            store.wf(),
            store@ == Map::<i32, Option<Seq<char>>>::empty(),
    {
        let store = RevocationStore { records: Vec::new() };
        assert(store@ =~= Map::<i32, Option<Seq<char>>>::empty()) by {
            assert forall|id: i32| !store@.contains_key(id) by {
                if store@.contains_key(id) {
                    let k = choose|k: int| is_at(store.records@, k, id);
                    assert(is_at(store.records@, k, id));
                }
            }
        }
        store
    }

    fn position(&self, id: i32) -> (pos: Option<usize>)
        requires
            self.wf(),
        ensures
            match pos {
                Some(i) => i < self.records@.len() && self.records@[i as int].id == id,
                None => !self@.contains_key(id),
            },
    {
        let mut i: usize = 0;
        while i < self.records.len()
            invariant
                i <= self.records@.len(),
                forall|k: int| 0 <= k < i ==> (#[trigger] self.records@[k]).id != id,
            decreases self.records@.len() - i,
        {
            if self.records[i].id == id {
                return Some(i);
            }
            i += 1;
        }
        proof {
            if self@.contains_key(id) {
                let k = choose|k: int| is_at(self.records@, k, id);
                assert(is_at(self.records@, k, id));
            }
        }
        None
    }

    /// Makes an identity known, with no token. A known identity keeps its token.
    pub fn register(&mut self, id: i32)
        requires
            old(self).wf(),
        ensures
            final(self).wf(),
            final(self)@ == if old(self)@.contains_key(id) {
                old(self)@
            } else {
                old(self)@.insert(id, None)
            },
    {
        match self.position(id) {
            Some(i) => {
                proof {
                    lemma_lookup(self.records@, i as int);
                }
            },
            None => {
                let record = Record { id, token: None };
                proof {
                    lemma_push(self.records@, record);
                }
                self.records.push(record);
            },
        }
    }

    /// Whether the identity is known.
    pub fn knows(&self, id: i32) -> (known: bool)
        requires
            self.wf(),
        ensures
            known == self@.contains_key(id),
    {
        match self.position(id) {
            Some(i) => {
                proof {
                    lemma_lookup(self.records@, i as int);
                }
                true
            },
            None => false,
        }
    }

    /// The current refresh token of an identity.
    pub fn current(&self, id: i32) -> (token: Option<&String>)
        requires
            self.wf(),
        ensures
            match token {
                Some(t) => is_current(self@, id, t@),
                None => !self@.contains_key(id) || self@[id] is None,
            },
    {
        match self.position(id) {
            Some(i) => {
                proof {
                    lemma_lookup(self.records@, i as int);
                }
                self.records[i].token.as_ref()
            },
            None => None,
        }
    }

    /// Makes `token` the current refresh token of a known identity, whatever was
    /// there before.
    pub fn set_token(&mut self, id: i32, token: String) -> (outcome: Result<(), Failure>)
        requires
            old(self).wf(),
        ensures
            final(self).wf(),
            outcome == set_result(old(self)@, id),
            final(self)@ == after_set(old(self)@, id, token@),
    {
        match self.position(id) {
            Some(i) => {
                let record = Record { id, token: Some(token) };
                proof {
                    lemma_lookup(self.records@, i as int);
                    lemma_update(self.records@, i as int, record);
                }
                self.records.set(i, record);
                Ok(())
            },
            None => Err(Failure::NotFound),
        }
    }

    /// Replaces the current refresh token of an identity by `new_token` if it is
    /// `old_token`,
    /// and leaves the store as it is otherwise.
    pub fn rotate_token(&mut self, id: i32, old_token: &str, new_token: String) -> (outcome:
        Result<(), Failure>)
        requires
            old(self).wf(),
        ensures
            final(self).wf(),
            outcome == rotate_result(old(self)@, id, old_token@),
            final(self)@ == after_rotate(old(self)@, id, old_token@, new_token@),
    {
        match self.position(id) {
            Some(i) => {
                proof {
                    lemma_lookup(self.records@, i as int);
                }
                let expected = old_token.to_owned();
                let matches = match &self.records[i].token {
                    Some(t) => *t == expected,
                    None => false,
                };
                if matches {
                    let record = Record { id, token: Some(new_token) };
                    proof {
                        lemma_update(self.records@, i as int, record);
                    }
                    self.records.set(i, record);
                    Ok(())
                } else {
                    Err(Failure::Conflict)
                }
            },
            None => Err(Failure::Conflict),
        }
    }

    /// Whether the token is the current refresh token of some identity.
    pub fn exists_token(&self, token: &str) -> (found: bool)
        requires
            self.wf(),
        ensures
            found == holds(self@, token@),
    {
        let wanted = token.to_owned();
        let mut i: usize = 0;
        while i < self.records.len()
            invariant
                self.wf(),
                wanted@ == token@,
                i <= self.records@.len(),
                forall|k: int|
                    0 <= k < i ==> token_view((#[trigger] self.records@[k]).token) != Some(
                        token@,
                    ),
            decreases self.records@.len() - i,
        {
            let same = match &self.records[i].token {
                Some(t) => *t == wanted,
                None => false,
            };
            if same {
                proof {
                    lemma_lookup(self.records@, i as int);
                    assert(self@.contains_key(self.records@[i as int].id));
                }
                return true;
            }
            i += 1;
        }
        proof {
            if holds(self@, token@) {
                let id = choose|id: i32| #[trigger]
                    self@.contains_key(id) && self@[id] == Some(token@);
                let k = choose|k: int| is_at(self.records@, k, id);
                assert(is_at(self.records@, k, id));
                lemma_lookup(self.records@, k);
            }
        }
        false
    }
}

/// A change to a store.
pub enum StoreOp {
    /// An identity becomes known.
    Register(i32),
    /// The token of an identity is set.
    SetToken(i32, Seq<char>),
    /// The token of an identity is rotated from the first token to the second.
    RotateToken(i32, Seq<char>, Seq<char>),
}

impl StoreOp {
    /// The store after the change.
    pub open spec fn apply(self, ledger: Ledger) -> Ledger {
        match self {
            StoreOp::Register(id) => if ledger.contains_key(id) {
                ledger
            } else {
                ledger.insert(id, None)
            },
            StoreOp::SetToken(id, token) => after_set(ledger, id, token),
            StoreOp::RotateToken(id, old_token, new_token) => after_rotate(
                ledger,
                id,
                old_token,
                new_token,
            ),
        }
    }

    /// Whether the change can make `token` current.
    pub open spec fn introduces(self, token: Seq<char>) -> bool {
        match self {
            StoreOp::Register(_) => false,
            StoreOp::SetToken(_, new_token) => new_token == token,
            StoreOp::RotateToken(_, _, new_token) => new_token == token,
        }
    }
}

/// The store after a series of changes, the first of the series applied first.
pub open spec fn apply_all(ledger: Ledger, ops: Seq<StoreOp>) -> Ledger
    decreases ops.len(),
{
    if ops.len() == 0 {
        ledger
    } else {
        ops.last().apply(apply_all(ledger, ops.drop_last()))
    }
}

/// Of two attempts to rotate away from the same token, at most one succeeds, and
/// exactly one where the token was current. The one that comes second fails with
/// a conflict and leaves the store as the first left it.
///
/// This needs the first attempt to put a token in place that differs from the one
/// it replaces.
pub proof fn rotation_single_winner(
    ledger: Ledger,
    id: i32,
    old_token: Seq<char>,
    first: Seq<char>,
    second: Seq<char>,
)
    requires
        first != old_token,
    ensures
        rotate_result(after_rotate(ledger, id, old_token, first), id, old_token) == Err::<
            (),
            Failure,
        >(Failure::Conflict),
        after_rotate(after_rotate(ledger, id, old_token, first), id, old_token, second)
            == after_rotate(ledger, id, old_token, first),
        rotate_result(ledger, id, old_token) is Ok <==> is_current(ledger, id, old_token),
        is_current(ledger, id, old_token) ==> is_current(
            after_rotate(ledger, id, old_token, first),
            id,
            first,
        ),
{
}

/// A rotation that fails changes nothing, and one that succeeds changes the
/// token of its identity and nothing else.
pub proof fn rotation_is_compare_and_swap(
    ledger: Ledger,
    id: i32,
    old_token: Seq<char>,
    new_token: Seq<char>,
)
    ensures
        rotate_result(ledger, id, old_token) is Err ==> after_rotate(
            ledger,
            id,
            old_token,
            new_token,
        ) == ledger,
        rotate_result(ledger, id, old_token) is Ok ==> after_rotate(
            ledger,
            id,
            old_token,
            new_token,
        )[id] == Some(new_token),
        forall|other: i32|
            other != id ==> (#[trigger] after_rotate(
                ledger,
                id,
                old_token,
                new_token,
            ).contains_key(other) == ledger.contains_key(other)),
        forall|other: i32|
            other != id && ledger.contains_key(other) ==> #[trigger] after_rotate(
                ledger,
                id,
                old_token,
                new_token,
            )[other] == ledger[other],
        after_rotate(ledger, id, old_token, new_token).dom() == ledger.dom(),
{
    assert(after_rotate(ledger, id, old_token, new_token).dom() =~= ledger.dom());
}

/// Once a rotation has replaced a token, the store holds it no more.
///
/// This needs the new token to differ from the old one, and the old one to be
/// the token of no other identity.
pub proof fn superseded_token_is_gone(
    ledger: Ledger,
    id: i32,
    old_token: Seq<char>,
    new_token: Seq<char>,
)
    requires
        is_current(ledger, id, old_token),
        new_token != old_token,
        forall|other: i32|
            other != id && #[trigger] ledger.contains_key(other) ==> ledger[other] != Some(
                old_token,
            ),
    ensures
        !holds(after_rotate(ledger, id, old_token, new_token), old_token),
{
    let after = after_rotate(ledger, id, old_token, new_token);
    if holds(after, old_token) {
        let who = choose|who: i32| #[trigger] after.contains_key(who) && after[who] == Some(old_token);
        assert(ledger.contains_key(who));
    }
}

/// A change that does not bring a token in does not make the store hold it.
pub proof fn absent_token_stays_absent(ledger: Ledger, op: StoreOp, token: Seq<char>)
    requires
        !holds(ledger, token),
        !op.introduces(token),
    ensures
        !holds(op.apply(ledger), token),
{
    let after = op.apply(ledger);
    if holds(after, token) {
        let who = choose|who: i32| #[trigger] after.contains_key(who) && after[who] == Some(token);
        match op {
            StoreOp::Register(id) => {
                assert(ledger.contains_key(who) && ledger[who] == Some(token));
            },
            StoreOp::SetToken(id, new_token) => {
                assert(ledger.contains_key(who) && ledger[who] == Some(token));
            },
            StoreOp::RotateToken(id, old_token, new_token) => {
                assert(ledger.contains_key(who) && ledger[who] == Some(token));
            },
        }
    }
}

/// A token that the store does not hold is never held again, whatever changes
/// follow, as long as none of them brings that very token in.
pub proof fn superseded_token_never_returns(ledger: Ledger, ops: Seq<StoreOp>, token: Seq<char>)
    requires
        !holds(ledger, token),
        forall|i: int| 0 <= i < ops.len() ==> !(#[trigger] ops[i]).introduces(token),
    ensures
        !holds(apply_all(ledger, ops), token),
    decreases ops.len(),
{
    if ops.len() > 0 {
        let earlier = ops.drop_last();
        assert forall|i: int| 0 <= i < earlier.len() implies !(#[trigger] earlier[i]).introduces(
            token,
        ) by {
            assert(earlier[i] == ops[i]);
        }
        superseded_token_never_returns(ledger, earlier, token);
        absent_token_stays_absent(apply_all(ledger, earlier), ops.last(), token);
    }
}

/// Setting and rotating keep one token per identity and make no identity known
/// or unknown.
pub proof fn identities_are_kept(ledger: Ledger, id: i32, old_token: Seq<char>, token: Seq<char>)
    ensures
        after_set(ledger, id, token).dom() == ledger.dom(),
        after_rotate(ledger, id, old_token, token).dom() == ledger.dom(),
        set_result(ledger, id) is Ok ==> is_current(after_set(ledger, id, token), id, token),
        set_result(ledger, id) is Err ==> after_set(ledger, id, token) == ledger,
{
    assert(after_set(ledger, id, token).dom() =~= ledger.dom());
    assert(after_rotate(ledger, id, old_token, token).dom() =~= ledger.dom());
}

} // verus!
