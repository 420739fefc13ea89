pub mod account_map;
pub mod error;
pub mod exchange;
pub mod ft_receiver;
pub mod migration;
pub mod ownership;
pub mod pausable;
pub mod token_units;

use vstd::prelude::*;

use crate::account_map::AccountMap;
use crate::error::ContractError;

verus! {

/// What a note is, as a mathematical value.
pub struct NoteView {
    pub id: Option<u64>,
    pub title: Seq<char>,
    pub body: Seq<char>,
}

/// A note posted by an account.
#[derive(Debug, Clone)]
pub struct PostedNote {
    pub id: Option<u64>,
    pub title: String,
    pub body: String,
}

impl View for PostedNote {
    type V = NoteView;

    open spec fn view(&self) -> NoteView {
        NoteView { id: self.id, title: self.title@, body: self.body@ }
    }
}

/// The views of a sequence of notes.
pub open spec fn note_views(s: Seq<PostedNote>) -> Seq<NoteView> {
    s.map_values(|n: PostedNote| n@)
}

/// The notes of `s` from position `from`, at most `limit` of them.
pub open spec fn page<A>(s: Seq<A>, from: int, limit: int) -> Seq<A> {
    let start = if from < s.len() { from } else { s.len() as int };
    let end = if start + limit < s.len() { start + limit } else { s.len() as int };
    s.subrange(start, end)
}

impl PostedNote {
    pub fn new(title: String, body: String, id: Option<u64>) -> (r: Self)
        ensures
            r@ == (NoteView { id, title: title@, body: body@ }),
    {
        PostedNote { title, body, id }
    }

    /// A copy of this note.
    pub fn copied(&self) -> (r: Self)
        ensures
            r@ == self@,
    {
        PostedNote { id: self.id, title: self.title.clone(), body: self.body.clone() }
    }

    /// Whether two notes have the same id, title and body.
    pub fn same_as(&self, other: &PostedNote) -> (r: bool)
        ensures
            r == (self@ == other@),
    {
        let same_id = match (self.id, other.id) {
            (Some(a), Some(b)) => a == b,
            (None, None) => true,
            _ => false,
        };
        same_id && self.title == other.title && self.body == other.body
    }
}

impl PartialEq for PostedNote {
    fn eq(&self, other: &PostedNote) -> (r: bool) {
        self.same_as(other)
    }
}

impl Eq for PostedNote {
}

impl vstd::std_specs::cmp::PartialEqSpecImpl for PostedNote {
    open spec fn obeys_eq_spec() -> bool {
        true
    }

    open spec fn eq_spec(&self, other: &PostedNote) -> bool {
        self@ == other@
    }
}

/// A note list after adding `n`: the list is a set, so an equal note is not added twice.
pub open spec fn with_note(notes: Seq<NoteView>, n: NoteView) -> Seq<NoteView> {
    if notes.contains(n) {
        notes
    } else {
        notes.push(n)
    }
}

/// The position of the first note of `notes` whose id is `id`.
pub open spec fn first_with_id(notes: Seq<NoteView>, id: u64, i: int) -> bool {
    &&& 0 <= i < notes.len()
    &&& notes[i].id == Some(id)
    &&& forall|j: int| 0 <= j < i ==> notes[j].id != Some(id)
}

/// Whether `notes` holds a note equal to `note`.
fn holds_note(notes: &Vec<PostedNote>, note: &PostedNote) -> (r: bool)
    ensures
        r == note_views(notes@).contains(note@),
{
    let mut i: usize = 0;
    while i < notes.len()
        invariant
            i <= notes@.len(),
            forall|j: int| 0 <= j < i ==> notes@[j]@ != note@,
        decreases notes@.len() - i,
    {
        if notes[i].same_as(note) {
            assert(note_views(notes@)[i as int] == note@);
            return true;
        }
        i = i + 1;
    }
    proof {
        if note_views(notes@).contains(note@) {
            let j = choose|j: int| 0 <= j < notes@.len() && note_views(notes@)[j] == note@;
            assert(notes@[j]@ == note@);
        }
    }
    false
}

/// The contract's state: notes per account, point balances, managers and configuration.
pub struct Contract {
    greeting: String,
    note_book: AccountMap<Vec<PostedNote>>,
    pub ft_id: String,
    pub w_near_id: String,
    next_entry_id: Option<u64>,
    managers: AccountMap<()>,
    user_points: AccountMap<u128>,
    version: u64,
    paused: bool,
}

impl Contract {
    /// The stores are well formed.
    pub open(crate) spec fn wf(&self) -> bool {
        &&& self.note_book.wf()
        &&& self.managers.wf()
        &&& self.user_points.wf()
    }

    /// The id the next note will get.
    pub open(crate) spec fn next_id(&self) -> int {
        match self.next_entry_id {
            Some(n) => n as int,
            None => 0,
        }
    }

    /// The notes of account `a`, in listing order.
    pub open(crate) spec fn notes_of(&self, a: Seq<char>) -> Seq<NoteView> {
        if self.note_book@.contains_key(a) {
            note_views(self.note_book@[a]@)
        } else {
            Seq::empty()
        }
    }

    /// The stored id counter; none before the first note.
    pub open(crate) spec fn id_counter(&self) -> Option<u64> {
        self.next_entry_id
    }

    /// Whether account `a` has an entry in the note store.
    pub open(crate) spec fn has_notebook(&self, a: Seq<char>) -> bool {
        self.note_book@.contains_key(a)
    }

    /// The point ledger.
    pub open(crate) spec fn points(&self) -> Map<Seq<char>, u128> {
        self.user_points@
    }

    /// The manager allow-list.
    pub open(crate) spec fn manager_set(&self) -> Set<Seq<char>> {
        self.managers@.dom()
    }

    /// The account of the fungible-token ledger.
    pub open(crate) spec fn ft_account(&self) -> Seq<char> {
        self.ft_id@
    }

    /// The account of the wrapped native-token ledger.
    pub open(crate) spec fn w_near_account(&self) -> Seq<char> {
        self.w_near_id@
    }

    pub open(crate) spec fn spec_version(&self) -> u64 {
        self.version
    }

    pub open(crate) spec fn spec_greeting(&self) -> Seq<char> {
        self.greeting@
    }

    pub open(crate) spec fn spec_paused(&self) -> bool {
        self.paused
    }

    /// A contract with no notes and no balances.
    pub fn new(ft_id: String, w_near_id: String, managers: Vec<String>) -> (r: Self)
        ensures
            r.wf(),
            r.ft_account() == ft_id@,
            r.w_near_account() == w_near_id@,
            r.manager_set() == managers@.map_values(|m: String| m@).to_set(),
            forall|a: Seq<char>| !#[trigger] r.has_notebook(a),
            r.points() == Map::<Seq<char>, u128>::empty(),
            r.next_id() == 0,
            r.id_counter() == None::<u64>,
            r.spec_version() == 1,
            r.spec_greeting() == "Hello"@,
            !r.spec_paused(),
    {
        let mut managers_set: AccountMap<()> = AccountMap::new();
        let mut i: usize = 0;
        while i < managers.len()
            invariant
                i <= managers@.len(),
                managers_set.wf(),
                managers_set@.dom() == managers@.subrange(0, i as int).map_values(|m: String| m@).to_set(),
            decreases managers@.len() - i,
        {
            let ghost before = managers_set@.dom();
            managers_set.insert(managers[i].clone(), ());
            proof {
                let s = managers@.subrange(0, i as int).map_values(|m: String| m@);
                let t = managers@.subrange(0, i + 1).map_values(|m: String| m@);
                assert(t =~= s.push(managers@[i as int]@));
                s.lemma_push_to_set_commute(managers@[i as int]@);
                assert(managers_set@.dom() =~= before.insert(managers@[i as int]@));
            }
            i = i + 1;
        }
        assert(managers@.subrange(0, managers@.len() as int) =~= managers@);
        Contract {
            greeting: "Hello".to_string(),
            note_book: AccountMap::new(),
            ft_id,
            w_near_id,
            managers: managers_set,
            next_entry_id: None,
            user_points: AccountMap::new(),
            version: 1,
            paused: false,
        }
    }

    /// The note store and the id counter are as in `pre`.
    pub open(crate) spec fn same_notes(&self, pre: &Contract) -> bool {
        &&& self.note_book == pre.note_book
        &&& self.next_entry_id == pre.next_entry_id
    }

    /// The configuration, the managers, the version and the pause flag are as in `pre`.
    pub open(crate) spec fn same_config(&self, pre: &Contract) -> bool {
        &&& self.manager_set() == pre.manager_set()
        &&& self.ft_account() == pre.ft_account()
        &&& self.w_near_account() == pre.w_near_account()
        &&& self.spec_version() == pre.spec_version()
        &&& self.spec_greeting() == pre.spec_greeting()
        &&& self.spec_paused() == pre.spec_paused()
    }

    /// Every field other than the note store and the id counter is as in `pre`.
    pub open(crate) spec fn same_but_notes(&self, pre: &Contract) -> bool {
        &&& self.points() == pre.points()
        &&& self.same_config(pre)
    }

    /// `self` is `pre` after note `n` was added for account `a` and the id counter moved past `id`.
    pub open(crate) spec fn note_added(&self, pre: &Contract, a: Seq<char>, n: NoteView, id: int) -> bool {
        &&& self.wf()
        &&& self.next_id() == id + 1
        &&& self.has_notebook(a)
        &&& self.notes_of(a) == with_note(pre.notes_of(a), n)
        &&& forall|b: Seq<char>|
            b != a ==> #[trigger] self.notes_of(b) == pre.notes_of(b) && self.has_notebook(b)
                == pre.has_notebook(b)
    }

    pub fn get_greeting(&self) -> (r: String)
        ensures
            r@ == self.spec_greeting(),
    {
        self.greeting.clone()
    }

    pub fn set_greeting(&mut self, greeting: String)
        ensures
            final(self).spec_greeting() == greeting@,
            final(self).wf() == old(self).wf(),
            final(self).same_notes(&*old(self)),
            final(self).points() == old(self).points(),
            final(self).manager_set() == old(self).manager_set(),
            final(self).ft_account() == old(self).ft_account(),
            final(self).w_near_account() == old(self).w_near_account(),
            final(self).spec_version() == old(self).spec_version(),
            final(self).spec_paused() == old(self).spec_paused(),
    {
        self.greeting = greeting;
    }

    /// The schema version.
    pub fn get_version(&self) -> (r: u64)
        ensures
            r == self.spec_version(),
    {
        self.version
    }

    /// Adds a note with the next id for `account_id` and returns that id.
    pub fn add_note(&mut self, account_id: String, title: String, body: String) -> (r: Result<
        u64,
        ContractError,
    >)
        requires
            old(self).wf(),
        ensures
            match r {
                Ok(id) => {
                    &&& id == old(self).next_id()
                    &&& final(self).same_but_notes(&*old(self))
                    &&& final(self).note_added(
                        &*old(self),
                        account_id@,
                        NoteView { id: Some(id), title: title@, body: body@ },
                        id as int,
                    )
                },
                Err(e) => {
                    &&& e == ContractError::IdsExhausted
                    &&& old(self).next_id() == u64::MAX
                    &&& *final(self) == *old(self)
                },
            },
            old(self).next_id() < u64::MAX ==> r is Ok,
    {
        let next_entry_id = match self.next_entry_id {
            Some(n) => n,
            None => 0,
        };
        if next_entry_id == u64::MAX {
            return Err(ContractError::IdsExhausted);
        }
        let note = PostedNote::new(title, body, Some(next_entry_id));
        self.internal_add_note(account_id, note, next_entry_id);
        Ok(next_entry_id)
    }

    /// Adds `note` to the notes of `account_id` and moves the id counter past `next_entry_id`.
    pub(crate) fn internal_add_note(&mut self, account_id: String, note: PostedNote, next_entry_id: u64)
        requires
            old(self).wf(),
            next_entry_id < u64::MAX,
        ensures
            final(self).note_added(&*old(self), account_id@, note@, next_entry_id as int),
            final(self).same_but_notes(&*old(self)),
    {
        let ghost pre = *self;
        let ghost a = account_id@;
        let ghost n = note@;
        let placeholder: Vec<PostedNote> = Vec::new();
        match self.note_book.replace(&account_id, placeholder) {
            Some(mut existing) => {
                let ghost before = existing@;
                if !holds_note(&existing, &note) {
                    existing.push(note);
                    assert(note_views(existing@) =~= note_views(before).push(n));
                }
                self.note_book.insert(account_id, existing);
            },
            None => {
                let mut fresh: Vec<PostedNote> = Vec::new();
                fresh.push(note);
                assert(!Seq::<NoteView>::empty().contains(n));
                assert(note_views(fresh@) =~= note_views(Seq::<PostedNote>::empty()).push(n));
                self.note_book.insert(account_id, fresh);
            },
        }
        self.next_entry_id = Some(next_entry_id + 1);
        assert(forall|b: Seq<char>| b != a ==> self.note_book@.contains_key(b) == pre.note_book@.contains_key(b));
        assert(forall|b: Seq<char>| b != a && self.note_book@.contains_key(b) ==> self.note_book@[b] == pre.note_book@[b]);
        assert(self.wf());
        assert(self.same_but_notes(&pre));
        assert(self.has_notebook(a));
        assert(self.notes_of(a) == with_note(pre.notes_of(a), n));
        assert forall|b: Seq<char>| b != a implies #[trigger] self.notes_of(b) == pre.notes_of(b) && self.has_notebook(b)
                == pre.has_notebook(b) by {}
    }

    /// The first note of `account_id` whose id is `id`. Fails when there is none:
    /// with `NoEntry` when the account has no notes entry, else with `NoteDoesNotExist`.
    pub fn get_note(&self, account_id: &String, id: u64) -> (r: Result<PostedNote, ContractError>)
        requires
            self.wf(),
        ensures
            r is Ok <==> exists|i: int|
                0 <= i < self.notes_of(account_id@).len() && #[trigger] self.notes_of(account_id@)[i].id
                    == Some(id),
            match r {
                Ok(n) => exists|i: int| #[trigger]
                    first_with_id(self.notes_of(account_id@), id, i) && n@ == self.notes_of(account_id@)[i],
                Err(e) => if self.has_notebook(account_id@) {
                    e == ContractError::NoteDoesNotExist
                } else {
                    e == ContractError::NoEntry
                },
            },
    {
        let notes = match self.note_book.get(account_id) {
            Some(notes) => notes,
            None => {
                return Err(ContractError::NoEntry);
            },
        };
        let ghost views = self.notes_of(account_id@);
        let mut i: usize = 0;
        while i < notes.len()
            invariant
                i <= notes@.len(),
                self.has_notebook(account_id@),
                views == self.notes_of(account_id@),
                views == note_views(notes@),
                forall|j: int| 0 <= j < i ==> views[j].id != Some(id),
            decreases notes@.len() - i,
        {
            let matches = match notes[i].id {
                Some(n) => n == id,
                None => false,
            };
            if matches {
                assert(first_with_id(views, id, i as int));
                return Ok(notes[i].copied());
            }
            i = i + 1;
        }
        Err(ContractError::NoteDoesNotExist)
    }

    /// The notes of `account_id` from `from_index` on (0 when absent), at most `limit` of them
    /// (all when absent).
    pub fn get_notes(&self, account_id: &String, from_index: Option<u32>, limit: Option<u32>) -> (r: Result<
        Vec<PostedNote>,
        ContractError,
    >)
        requires
            self.wf(),
        ensures
            match r {
                Ok(v) => self.has_notebook(account_id@) && note_views(v@) == page(
                    self.notes_of(account_id@),
                    match from_index {
                        Some(f) => f as int,
                        None => 0,
                    },
                    match limit {
                        Some(l) => l as int,
                        None => u32::MAX as int,
                    },
                ),
                Err(e) => e == ContractError::NoEntry && !self.has_notebook(account_id@),
            },
    {
        let notes = match self.note_book.get(account_id) {
            Some(notes) => notes,
            None => {
                return Err(ContractError::NoEntry);
            },
        };
        let from: usize = match from_index {
            Some(f) => f as usize,
            None => 0,
        };
        let count: usize = match limit {
            Some(l) => l as usize,
            None => u32::MAX as usize,
        };
        let ghost views = self.notes_of(account_id@);
        let ghost whole = page(views, from as int, count as int);
        let start: usize = if from < notes.len() { from } else { notes.len() };
        let end: usize = if count < notes.len() - start { start + count } else { notes.len() };
        let mut out: Vec<PostedNote> = Vec::new();
        let mut i: usize = start;
        while i < end
            invariant
                start <= i <= end <= notes@.len(),
                views == note_views(notes@),
                note_views(out@) == views.subrange(start as int, i as int),
            decreases end - i,
        {
            let ghost before = out@;
            out.push(notes[i].copied());
            assert(note_views(out@) =~= note_views(before).push(views[i as int]));
            assert(views.subrange(start as int, i + 1) =~= views.subrange(start as int, i as int).push(
                views[i as int],
            ));
            i = i + 1;
        }
        assert(note_views(out@) =~= whole);
        Ok(out)
    }

    /// The point balance of `account_id`.
    pub fn get_user_points(&self, account_id: &String) -> (r: Result<u128, ContractError>)
        requires
            self.wf(),
        ensures
            match r {
                Ok(p) => self.points().contains_key(account_id@) && p == self.points()[account_id@],
                Err(e) => e == ContractError::NoEntry && !self.points().contains_key(account_id@),
            },
    {
        match self.user_points.get(account_id) {
            Some(p) => Ok(*p),
            None => Err(ContractError::NoEntry),
        }
    }
}

/// What is left of `deposit` after paying `byte_cost` for each of `bytes_used` bytes of storage.
pub fn storage_refund(deposit: u128, byte_cost: u128, bytes_used: u64) -> (r: Result<u128, ContractError>)
    ensures
        byte_cost * bytes_used <= deposit ==> r == Ok::<u128, ContractError>(
            (deposit - byte_cost * bytes_used) as u128,
        ),
        byte_cost * bytes_used > deposit ==> r == Err::<u128, ContractError>(ContractError::NotEnoughDeposit),
{
    match byte_cost.checked_mul(bytes_used as u128) {
        Some(cost) => {
            if cost <= deposit {
                Ok(deposit - cost)
            } else {
                Err(ContractError::NotEnoughDeposit)
            }
        },
        None => Err(ContractError::NotEnoughDeposit),
    }
}

/// The note `add_note` stores as the `i`-th of a run of additions.
pub open spec fn added_view(ids: Seq<u64>, titles: Seq<Seq<char>>, bodies: Seq<Seq<char>>, i: int) -> NoteView {
    NoteView { id: Some(ids[i]), title: titles[i], body: bodies[i] }
}

/// `states` is a run of `add_note` calls for `account`: the `i`-th call hands out
/// `ids[i]` and stores the note with `titles[i]` and `bodies[i]`.
pub open spec fn note_run(
    states: Seq<Contract>,
    account: Seq<char>,
    ids: Seq<u64>,
    titles: Seq<Seq<char>>,
    bodies: Seq<Seq<char>>,
) -> bool {
    &&& states.len() == ids.len() + 1
    &&& titles.len() == ids.len()
    &&& bodies.len() == ids.len()
    &&& forall|i: int|
        0 <= i < ids.len() ==> ids[i] == #[trigger] states[i].next_id() && states[i + 1].note_added(
            &states[i],
            account,
            added_view(ids, titles, bodies, i),
            ids[i] as int,
        )
}

proof fn lemma_note_run_prefix(
    states: Seq<Contract>,
    account: Seq<char>,
    ids: Seq<u64>,
    titles: Seq<Seq<char>>,
    bodies: Seq<Seq<char>>,
    k: int,
)
    requires
        note_run(states, account, ids, titles, bodies),
        states[0].notes_of(account).len() == 0,
        0 <= k <= ids.len(),
    ensures
        states[k].notes_of(account).len() == k,
        states[k].next_id() == states[0].next_id() + k,
        forall|i: int| 0 <= i < k ==> ids[i] == states[0].next_id() + i,
        forall|i: int|
            0 <= i < k ==> #[trigger] states[k].notes_of(account)[i] == added_view(ids, titles, bodies, i),
    decreases k,
{
    if k > 0 {
        lemma_note_run_prefix(states, account, ids, titles, bodies, k - 1);
        let prev = states[k - 1].notes_of(account);
        let v = added_view(ids, titles, bodies, k - 1);
        assert(ids[k - 1] == states[k - 1].next_id());
        assert(states[k].note_added(&states[k - 1], account, v, ids[k - 1] as int));
        if prev.contains(v) {
            let j = choose|j: int| 0 <= j < prev.len() && prev[j] == v;
            assert(prev[j] == added_view(ids, titles, bodies, j));
        }
        assert(states[k].notes_of(account) == prev.push(v));
    }
}

/// After a run of `add_note` calls for an account that had no notes, the account's
/// notes are exactly the added ones, one per call, in the order of the calls, and
/// their ids strictly increase.
pub proof fn lemma_sequential_notes_listed(
    states: Seq<Contract>,
    account: Seq<char>,
    ids: Seq<u64>,
    titles: Seq<Seq<char>>,
    bodies: Seq<Seq<char>>,
)
    requires
        note_run(states, account, ids, titles, bodies),
        states[0].notes_of(account).len() == 0,
    ensures
        states.last().notes_of(account).len() == ids.len(),
        forall|i: int|
            0 <= i < ids.len() ==> #[trigger] states.last().notes_of(account)[i] == added_view(
                ids,
                titles,
                bodies,
                i,
            ),
        forall|i: int, j: int| 0 <= i < j < ids.len() ==> #[trigger] ids[i] < #[trigger] ids[j],
{
    lemma_note_run_prefix(states, account, ids, titles, bodies, ids.len() as int);
}

} // verus!
