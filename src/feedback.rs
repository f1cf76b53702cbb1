//! Feedback records and the table that stores them, with create-or-update
//! semantics keyed on the record's id.
use vstd::prelude::*;

verus! {

/// A point in time: microseconds since the Unix epoch, UTC.
#[derive(Clone, Copy, PartialEq, Eq, Structural, Debug)]
pub struct Timestamp {
    pub micros: i64,
}

/// The id a record carries before the table has stored it.
pub const UNSAVED_ID: i64 = -1;

/// Whether a record with this id has been stored.
pub open spec fn is_persisted(id: int) -> bool {
    id > UNSAVED_ID
}

/// The stamp a change made at `now` leaves on a record last changed at `prev`:
/// a record's stamps never run backwards.
pub open spec fn later(now: int, prev: int) -> int {
    if now > prev {
        now
    } else {
        prev
    }
}

/// One piece of feedback.
#[derive(Debug)]
pub struct Feedback {
    pub id: i64,
    pub category: String,
    pub reference: String,
    pub content: String,
    pub username: String,
    pub nickname: String,
    pub applied: i64,
    pub source: String,
    pub created_at: Timestamp,
    pub updated_at: Timestamp,
}

/// A feedback record as plain values.
pub struct FeedbackView {
    pub id: int,
    pub category: Seq<char>,
    pub reference: Seq<char>,
    pub content: Seq<char>,
    pub username: Seq<char>,
    pub nickname: Seq<char>,
    pub applied: int,
    pub source: Seq<char>,
    pub created_at: int,
    pub updated_at: int,
}

impl View for Feedback {
    type V = FeedbackView;

    open spec fn view(&self) -> FeedbackView {
        FeedbackView {
            id: self.id as int,
            category: self.category@,
            reference: self.reference@,
            content: self.content@,
            username: self.username@,
            nickname: self.nickname@,
            applied: self.applied as int,
            source: self.source@,
            created_at: self.created_at.micros as int,
            updated_at: self.updated_at.micros as int,
        }
    }
}

impl Clone for Feedback {
    fn clone(&self) -> (r: Self)
        ensures
            r == *self,
    {
        Feedback {
            id: self.id,
            category: self.category.clone(),
            reference: self.reference.clone(),
            content: self.content.clone(),
            username: self.username.clone(),
            nickname: self.nickname.clone(),
            applied: self.applied,
            source: self.source.clone(),
            created_at: self.created_at,
            updated_at: self.updated_at,
        }
    }
}

impl PartialEq for Feedback {
    fn eq(&self, o: &Feedback) -> (r: bool)
        ensures
            r == (self@ == o@),
    {
        self.id == o.id && self.category == o.category && self.reference == o.reference
            && self.content == o.content && self.username == o.username && self.nickname
            == o.nickname && self.applied == o.applied && self.source == o.source
            && self.created_at.micros == o.created_at.micros && self.updated_at.micros
            == o.updated_at.micros
    }
}

impl vstd::std_specs::cmp::PartialEqSpecImpl for Feedback {
    open spec fn obeys_eq_spec() -> bool {
        true
    }

    open spec fn eq_spec(&self, o: &Feedback) -> bool {
        self@ == o@
    }
}

/// Why a table operation failed.
#[derive(Clone, Copy, PartialEq, Eq, Structural, Debug)]
pub enum StoreError {
    /// The category or the content is empty.
    Validation,
    /// No stored record has the id.
    NotFound,
    /// The table has no id left to give.
    Storage,
}

pub open spec fn result_view(r: Result<Feedback, StoreError>) -> Result<FeedbackView, StoreError> {
    match r {
        Ok(f) => Ok(f@),
        Err(e) => Err(e),
    }
}

/// The table as plain values: its rows in the order they were inserted, and
/// the id the next insert receives.
pub struct TableView {
    pub rows: Seq<FeedbackView>,
    pub next_id: int,
}

/// A stored row: category and content are present, and it was not changed
/// before it was created.
pub open spec fn row_wf(r: FeedbackView) -> bool {
    &&& r.category.len() > 0
    &&& r.content.len() > 0
    &&& r.created_at <= r.updated_at
}

impl TableView {
    /// Ids are positive, below `next_id`, and increase in insertion order (so
    /// no two rows share one).
    pub open spec fn wf(self) -> bool {
        &&& 1 <= self.next_id <= i64::MAX
        &&& forall|i: int|
            0 <= i < self.rows.len() ==> #[trigger] row_wf(self.rows[i]) && 1 <= self.rows[i].id
                < self.next_id
        &&& forall|i: int, j: int|
            0 <= i < j < self.rows.len() ==> #[trigger] self.rows[i].id < #[trigger] self.rows[j].id
    }
}

pub open spec fn has_id(rows: Seq<FeedbackView>, id: int) -> bool {
    exists|i: int| 0 <= i < rows.len() && rows[i].id == id
}

/// Where the row with `id` stands, when there is one.
pub open spec fn index_of(rows: Seq<FeedbackView>, id: int) -> int {
    choose|i: int| 0 <= i < rows.len() && rows[i].id == id
}

pub open spec fn valid_fields(category: Seq<char>, content: Seq<char>) -> bool {
    category.len() > 0 && content.len() > 0
}

/// Fetching the row with `id`.
pub open spec fn read_spec(t: TableView, id: int) -> Result<FeedbackView, StoreError> {
    if has_id(t.rows, id) {
        Ok(t.rows[index_of(t.rows, id)])
    } else {
        Err(StoreError::NotFound)
    }
}

/// Inserting a new row stamped `now`, under the next id.
pub open spec fn insert_spec(
    t: TableView,
    category: Seq<char>,
    reference: Seq<char>,
    content: Seq<char>,
    username: Seq<char>,
    nickname: Seq<char>,
    applied: int,
    source: Seq<char>,
    now: int,
) -> (TableView, Result<FeedbackView, StoreError>) {
    if !valid_fields(category, content) {
        (t, Err(StoreError::Validation))
    } else if t.next_id >= i64::MAX {
        (t, Err(StoreError::Storage))
    } else {
        let row = FeedbackView {
            id: t.next_id,
            category,
            reference,
            content,
            username,
            nickname,
            applied,
            source,
            created_at: now,
            updated_at: now,
        };
        (TableView { rows: t.rows.push(row), next_id: t.next_id + 1 }, Ok(row))
    }
}

/// Rewriting every field of the row with `id` but its id and creation stamp.
/// An absent id is not found, whatever the fields; a present one needs a
/// category and a content.
pub open spec fn rewrite_spec(
    t: TableView,
    id: int,
    category: Seq<char>,
    reference: Seq<char>,
    content: Seq<char>,
    username: Seq<char>,
    nickname: Seq<char>,
    applied: int,
    source: Seq<char>,
    now: int,
) -> (TableView, Result<FeedbackView, StoreError>) {
    if !has_id(t.rows, id) {
        (t, Err(StoreError::NotFound))
    } else if !valid_fields(category, content) {
        (t, Err(StoreError::Validation))
    } else {
        let i = index_of(t.rows, id);
        let old = t.rows[i];
        let row = FeedbackView {
            id,
            category,
            reference,
            content,
            username,
            nickname,
            applied,
            source,
            created_at: old.created_at,
            updated_at: later(now, old.updated_at),
        };
        (TableView { rows: t.rows.update(i, row), next_id: t.next_id }, Ok(row))
    }
}

/// Marking the row with `id` as applied.
pub open spec fn mark_applied_spec(t: TableView, id: int, now: int) -> (
    TableView,
    Result<FeedbackView, StoreError>,
) {
    if !has_id(t.rows, id) {
        (t, Err(StoreError::NotFound))
    } else {
        let i = index_of(t.rows, id);
        let old = t.rows[i];
        let row = FeedbackView { applied: 1, updated_at: later(now, old.updated_at), ..old };
        (TableView { rows: t.rows.update(i, row), next_id: t.next_id }, Ok(row))
    }
}

/// Deleting the record whose id is `id`: only a stored record's row goes, and
/// the answer says whether the record had been stored.
pub open spec fn delete_spec(t: TableView, id: int) -> (TableView, bool) {
    if !is_persisted(id) {
        (t, false)
    } else if has_id(t.rows, id) {
        (TableView { rows: t.rows.remove(index_of(t.rows, id)), next_id: t.next_id }, true)
    } else {
        (t, true)
    }
}

/// Saving the record `rec`: an update when it carries a stored id, else an insert.
pub open spec fn save_spec(t: TableView, rec: FeedbackView, now: int) -> (
    TableView,
    Result<FeedbackView, StoreError>,
) {
    if is_persisted(rec.id) {
        rewrite_spec(
            t,
            rec.id,
            rec.category,
            rec.reference,
            rec.content,
            rec.username,
            rec.nickname,
            rec.applied,
            rec.source,
            now,
        )
    } else {
        insert_spec(
            t,
            rec.category,
            rec.reference,
            rec.content,
            rec.username,
            rec.nickname,
            rec.applied,
            rec.source,
            now,
        )
    }
}

/// The record that saving leaves behind: the stored row, or the record as it
/// was when the save failed.
pub open spec fn saved_record(rec: FeedbackView, res: Result<FeedbackView, StoreError>) -> FeedbackView {
    match res {
        Ok(row) => row,
        Err(_) => rec,
    }
}

/// In a well-formed table the row at `i` is the one `index_of` finds for its id.
pub proof fn lemma_index_of(t: TableView, i: int)
    requires
        t.wf(),
        0 <= i < t.rows.len(),
    ensures
        has_id(t.rows, t.rows[i].id),
        index_of(t.rows, t.rows[i].id) == i,
{
    let id = t.rows[i].id;
    let j = index_of(t.rows, id);
    assert(0 <= j < t.rows.len() && t.rows[j].id == id);
    if j < i {
        assert(t.rows[j].id < t.rows[i].id);
    } else if i < j {
        assert(t.rows[i].id < t.rows[j].id);
    }
}

/// Appending a well-formed row under the next id keeps the table well formed.
pub proof fn lemma_push_wf(t: TableView, row: FeedbackView)
    requires
        t.wf(),
        row_wf(row),
        row.id == t.next_id,
        t.next_id < i64::MAX,
    ensures
        (TableView { rows: t.rows.push(row), next_id: t.next_id + 1 }).wf(),
{
    let u = TableView { rows: t.rows.push(row), next_id: t.next_id + 1 };
    assert forall|i: int, j: int| 0 <= i < j < u.rows.len() implies #[trigger] u.rows[i].id
        < #[trigger] u.rows[j].id by {
        if j == t.rows.len() {
            assert(row_wf(t.rows[i]));
        } else {
            assert(t.rows[i].id < t.rows[j].id);
        }
    }
    assert forall|i: int| 0 <= i < u.rows.len() implies #[trigger] row_wf(u.rows[i]) && 1
        <= u.rows[i].id < u.next_id by {
        if i < t.rows.len() {
            assert(row_wf(t.rows[i]));
        }
    }
}

/// Replacing a row by a well-formed one with the same id keeps the table well formed.
pub proof fn lemma_replace_wf(t: TableView, i: int, row: FeedbackView)
    requires
        t.wf(),
        0 <= i < t.rows.len(),
        row_wf(row),
        row.id == t.rows[i].id,
    ensures
        (TableView { rows: t.rows.update(i, row), next_id: t.next_id }).wf(),
{
    let u = TableView { rows: t.rows.update(i, row), next_id: t.next_id };
    assert(row_wf(t.rows[i]));
    assert forall|a: int, b: int| 0 <= a < b < u.rows.len() implies #[trigger] u.rows[a].id
        < #[trigger] u.rows[b].id by {
        assert(t.rows[a].id < t.rows[b].id);
    }
    assert forall|k: int| 0 <= k < u.rows.len() implies #[trigger] row_wf(u.rows[k]) && 1
        <= u.rows[k].id < u.next_id by {
        assert(row_wf(t.rows[k]));
    }
}

/// Removing a row keeps the table well formed, and no row keeps its id.
pub proof fn lemma_remove_wf(t: TableView, i: int)
    requires
        t.wf(),
        0 <= i < t.rows.len(),
    ensures
        (TableView { rows: t.rows.remove(i), next_id: t.next_id }).wf(),
        !has_id(t.rows.remove(i), t.rows[i].id),
{
    let u = TableView { rows: t.rows.remove(i), next_id: t.next_id };
    assert forall|a: int, b: int| 0 <= a < b < u.rows.len() implies #[trigger] u.rows[a].id
        < #[trigger] u.rows[b].id by {
        if a < i {
            if b < i {
                assert(t.rows[a].id < t.rows[b].id);
            } else {
                assert(t.rows[a].id < t.rows[b + 1].id);
            }
        } else {
            assert(t.rows[a + 1].id < t.rows[b + 1].id);
        }
    }
    assert forall|k: int| 0 <= k < u.rows.len() implies #[trigger] row_wf(u.rows[k]) && 1
        <= u.rows[k].id < u.next_id by {
        if k < i {
            assert(row_wf(t.rows[k]));
        } else {
            assert(row_wf(t.rows[k + 1]));
        }
    }
    if has_id(u.rows, t.rows[i].id) {
        let k = choose|k: int| 0 <= k < u.rows.len() && u.rows[k].id == t.rows[i].id;
        if k < i {
            assert(t.rows[k].id < t.rows[i].id);
        } else {
            assert(t.rows[i].id < t.rows[k + 1].id);
        }
    }
}

/// The id that follows a sequence of stored rows.
pub open spec fn next_id_after(rows: Seq<FeedbackView>) -> int {
    if rows.len() == 0 {
        1
    } else {
        rows.last().id + 1
    }
}

/// The next id of a restored table: after the last row, and no earlier than `floor`.
pub open spec fn restored_next_id(rows: Seq<FeedbackView>, floor: int) -> int {
    if floor > next_id_after(rows) {
        floor
    } else {
        next_id_after(rows)
    }
}

/// A well-formed table stays so with a later next id.
proof fn lemma_raise_next_id(v: Seq<FeedbackView>, a: int, b: int)
    requires
        (TableView { rows: v, next_id: a }).wf(),
        a <= b <= i64::MAX,
    ensures
        (TableView { rows: v, next_id: b }).wf(),
{
    let t = TableView { rows: v, next_id: a };
    let u = TableView { rows: v, next_id: b };
    assert forall|i: int| 0 <= i < u.rows.len() implies #[trigger] row_wf(u.rows[i]) && 1
        <= u.rows[i].id < u.next_id by {
        assert(row_wf(t.rows[i]));
    }
    assert forall|i: int, j: int| 0 <= i < j < u.rows.len() implies #[trigger] u.rows[i].id
        < #[trigger] u.rows[j].id by {
        assert(t.rows[i].id < t.rows[j].id);
    }
}

/// The first `i` rows are well formed and their ids increase.
pub open spec fn prefix_wf(v: Seq<FeedbackView>, i: int) -> bool {
    &&& forall|k: int| 0 <= k < i ==> #[trigger] row_wf(v[k]) && 1 <= v[k].id
    &&& forall|a: int, b: int| 0 <= a < b < i ==> #[trigger] v[a].id < #[trigger] v[b].id
}

/// Whether a record could stand as a stored row.
fn row_fits(f: &Feedback) -> (r: bool)
    ensures
        r == (row_wf(f@) && 1 <= f.id),
{
    f.category.as_str().unicode_len() > 0 && f.content.as_str().unicode_len() > 0
        && f.created_at.micros <= f.updated_at.micros && f.id >= 1
}

proof fn lemma_prefix_grows(v: Seq<FeedbackView>, i: int)
    requires
        0 <= i < v.len(),
        prefix_wf(v, i),
        row_wf(v[i]),
        1 <= v[i].id,
        i > 0 ==> v[i - 1].id < v[i].id,
    ensures
        prefix_wf(v, i + 1),
{
    assert forall|a: int, b: int| 0 <= a < b < i + 1 implies #[trigger] v[a].id < #[trigger] v[b].id by {
        if b == i && a < i - 1 {
            assert(v[a].id < v[i - 1].id);
        }
    }
}

proof fn lemma_misfit_row(v: Seq<FeedbackView>, i: int, next_id: int)
    requires
        0 <= i < v.len(),
        !(row_wf(v[i]) && 1 <= v[i].id && (i > 0 ==> v[i - 1].id < v[i].id)),
    ensures
        !(TableView { rows: v, next_id }).wf(),
{
    let t = TableView { rows: v, next_id };
    if t.wf() {
        assert(row_wf(t.rows[i]));
        if i > 0 {
            assert(t.rows[i - 1].id < t.rows[i].id);
        }
    }
}

proof fn lemma_prefix_table(v: Seq<FeedbackView>)
    requires
        prefix_wf(v, v.len() as int),
        v.len() > 0 ==> v.last().id < i64::MAX,
    ensures
        (TableView { rows: v, next_id: next_id_after(v) }).wf(),
{
    let t = TableView { rows: v, next_id: next_id_after(v) };
    if v.len() > 0 {
        assert(row_wf(v[v.len() - 1]));
    }
    assert forall|k: int| 0 <= k < v.len() implies #[trigger] row_wf(t.rows[k]) && 1 <= t.rows[k].id
        < t.next_id by {
        assert(row_wf(v[k]));
        if k < v.len() - 1 {
            assert(v[k].id < v[v.len() - 1].id);
        }
    }
}

/// The rows with a well-formed table; the records handed out are copies.
pub struct FeedbackStore {
    rows: Vec<Feedback>,
    next_id: i64,
}

impl View for FeedbackStore {
    type V = TableView;

    closed spec fn view(&self) -> TableView {
        TableView { rows: self.rows@.map_values(|f: Feedback| f@), next_id: self.next_id as int }
    }
}

impl FeedbackStore {
    /// An empty table whose first id is 1.
    pub fn new() -> (r: FeedbackStore)
        ensures
            r@.rows.len() == 0,
            r@.next_id == 1,
            r@.wf(),
    {
        let r = FeedbackStore { rows: Vec::new(), next_id: 1 };
        assert(r@.rows =~= Seq::<FeedbackView>::empty());
        r
    }

    /// A table holding `rows` as they are, in their order, when they form a
    /// well-formed table; `None` otherwise. The next id follows the last row,
    /// or is `floor` when that is later (so that the ids of rows deleted
    /// before are not given again).
    pub fn restore(rows: Vec<Feedback>, floor: i64) -> (r: Option<FeedbackStore>)
        ensures
            ({
                let v = rows@.map_values(|f: Feedback| f@);
                let t = TableView { rows: v, next_id: restored_next_id(v, floor as int) };
                match r {
                    Some(s) => s@ == t && t.wf(),
                    None => !t.wf(),
                }
            }),
    {
        let ghost v = rows@.map_values(|f: Feedback| f@);
        let n = rows.len();
        let mut i: usize = 0;
        while i < n
            invariant
                i <= n == rows@.len() == v.len(),
                v == rows@.map_values(|f: Feedback| f@),
                prefix_wf(v, i as int),
            decreases n - i,
        {
            let fits = row_fits(&rows[i]) && (i == 0 || rows[i - 1].id < rows[i].id);
            if !fits {
                proof {
                    lemma_misfit_row(v, i as int, restored_next_id(v, floor as int));
                }
                return None;
            }
            proof {
                lemma_prefix_grows(v, i as int);
            }
            i = i + 1;
        }
        if n > 0 && rows[n - 1].id == i64::MAX {
            return None;
        }
        let after_last: i64 = if n == 0 {
            1
        } else {
            rows[n - 1].id + 1
        };
        let next_id = if floor > after_last {
            floor
        } else {
            after_last
        };
        let s = FeedbackStore { rows, next_id };
        proof {
            assert(s@.rows =~= v);
            lemma_prefix_table(v);
            lemma_raise_next_id(v, next_id_after(v), next_id as int);
        }
        Some(s)
    }

    /// Where the row with `id` stands.
    fn position(&self, id: i64) -> (r: Option<usize>)
        requires
            self@.wf(),
        ensures
            match r {
                Some(i) => i < self@.rows.len() && has_id(self@.rows, id as int) && i == index_of(
                    self@.rows,
                    id as int,
                ),
                None => !has_id(self@.rows, id as int),
            },
    {
        let mut i: usize = 0;
        while i < self.rows.len()
            invariant
                i <= self.rows@.len(),
                self@.wf(),
                self@.rows.len() == self.rows@.len(),
                forall|k: int| 0 <= k < i ==> self@.rows[k].id != id,
            decreases self.rows.len() - i,
        {
            if self.rows[i].id == id {
                proof {
                    lemma_index_of(self@, i as int);
                }
                return Some(i);
            }
            i = i + 1;
        }
        None
    }

    fn insert(
        &mut self,
        category: &str,
        reference: &str,
        content: &str,
        username: &str,
        nickname: &str,
        applied: i64,
        source: &str,
        now: Timestamp,
    ) -> (r: Result<Feedback, StoreError>)
        requires
            old(self)@.wf(),
        ensures
            (final(self)@, result_view(r)) == insert_spec(
                old(self)@,
                category@,
                reference@,
                content@,
                username@,
                nickname@,
                applied as int,
                source@,
                now.micros as int,
            ),
            final(self)@.wf(),
    {
        if category.unicode_len() == 0 || content.unicode_len() == 0 {
            return Err(StoreError::Validation);
        }
        if self.next_id == i64::MAX {
            return Err(StoreError::Storage);
        }
        let row = Feedback {
            id: self.next_id,
            category: category.to_owned(),
            reference: reference.to_owned(),
            content: content.to_owned(),
            username: username.to_owned(),
            nickname: nickname.to_owned(),
            applied,
            source: source.to_owned(),
            created_at: now,
            updated_at: now,
        };
        let ghost before = self@;
        self.next_id = self.next_id + 1;
        self.rows.push(row.clone());
        assert(self@.rows =~= before.rows.push(row@));
        proof {
            lemma_push_wf(before, row@);
        }
        Ok(row)
    }

    fn rewrite(
        &mut self,
        id: i64,
        category: &str,
        reference: &str,
        content: &str,
        username: &str,
        nickname: &str,
        applied: i64,
        source: &str,
        now: Timestamp,
    ) -> (r: Result<Feedback, StoreError>)
        requires
            old(self)@.wf(),
        ensures
            (final(self)@, result_view(r)) == rewrite_spec(
                old(self)@,
                id as int,
                category@,
                reference@,
                content@,
                username@,
                nickname@,
                applied as int,
                source@,
                now.micros as int,
            ),
            final(self)@.wf(),
    {
        match self.position(id) {
            None => Err(StoreError::NotFound),
            Some(i) => {
                if category.unicode_len() == 0 || content.unicode_len() == 0 {
                    return Err(StoreError::Validation);
                }
                let created_at = self.rows[i].created_at;
                let prev = self.rows[i].updated_at;
                let stamp = if now.micros > prev.micros {
                    now
                } else {
                    prev
                };
                let row = Feedback {
                    id,
                    category: category.to_owned(),
                    reference: reference.to_owned(),
                    content: content.to_owned(),
                    username: username.to_owned(),
                    nickname: nickname.to_owned(),
                    applied,
                    source: source.to_owned(),
                    created_at,
                    updated_at: stamp,
                };
                let ghost before = self@;
                self.rows.set(i, row.clone());
                assert(self@.rows =~= before.rows.update(i as int, row@));
                proof {
                    assert(row_wf(before.rows[i as int]));
                    lemma_replace_wf(before, i as int, row@);
                }
                Ok(row)
            },
        }
    }

    fn mark_applied(&mut self, id: i64, now: Timestamp) -> (r: Result<Feedback, StoreError>)
        requires
            old(self)@.wf(),
        ensures
            (final(self)@, result_view(r)) == mark_applied_spec(old(self)@, id as int, now.micros as int),
            final(self)@.wf(),
    {
        match self.position(id) {
            None => Err(StoreError::NotFound),
            Some(i) => {
                let mut row = self.rows[i].clone();
                let prev = row.updated_at;
                row.applied = 1;
                if now.micros > prev.micros {
                    row.updated_at = now;
                }
                let ghost before = self@;
                self.rows.set(i, row.clone());
                assert(self@.rows =~= before.rows.update(i as int, row@));
                proof {
                    assert(row_wf(before.rows[i as int]));
                    lemma_replace_wf(before, i as int, row@);
                }
                Ok(row)
            },
        }
    }

    fn remove_id(&mut self, id: i64)
        requires
            old(self)@.wf(),
        ensures
            final(self)@ == (if has_id(old(self)@.rows, id as int) {
                TableView {
                    rows: old(self)@.rows.remove(index_of(old(self)@.rows, id as int)),
                    next_id: old(self)@.next_id,
                }
            } else {
                old(self)@
            }),
            final(self)@.wf(),
    {
        match self.position(id) {
            None => {},
            Some(i) => {
                let ghost before = self@;
                self.rows.remove(i);
                assert(self@.rows =~= before.rows.remove(i as int));
                proof {
                    lemma_remove_wf(before, i as int);
                }
            },
        }
    }
}

impl Feedback {
    /// A record not yet stored: unsaved id, empty fields, not applied, both
    /// stamps at `now`.
    pub fn new(now: Timestamp) -> (r: Feedback)
        ensures
            r.id == UNSAVED_ID,
            r@.category.len() == 0,
            r@.reference.len() == 0,
            r@.content.len() == 0,
            r@.username.len() == 0,
            r@.nickname.len() == 0,
            r@.source.len() == 0,
            r.applied == 0,
            r.created_at == now,
            r.updated_at == now,
    {
        Feedback {
            id: UNSAVED_ID,
            category: String::new(),
            reference: String::new(),
            content: String::new(),
            username: String::new(),
            nickname: String::new(),
            source: String::new(),
            applied: 0,
            created_at: now,
            updated_at: now,
        }
    }

    /// Inserts a record with the given fields, `applied` included, stamped `now`.
    pub fn new_from(
        store: &mut FeedbackStore,
        category: &str,
        reference: &str,
        content: &str,
        username: &str,
        nickname: &str,
        applied: i64,
        source: &str,
        now: Timestamp,
    ) -> (r: Result<Feedback, StoreError>)
        requires
            old(store)@.wf(),
        ensures
            (final(store)@, result_view(r)) == insert_spec(
                old(store)@,
                category@,
                reference@,
                content@,
                username@,
                nickname@,
                applied as int,
                source@,
                now.micros as int,
            ),
            final(store)@.wf(),
    {
        store.insert(category, reference, content, username, nickname, applied, source, now)
    }

    /// Create-or-update: rewrites the record `id` when an id is given, else
    /// inserts a new record; `applied` is taken as given either way.
    pub fn upsert(
        store: &mut FeedbackStore,
        id: Option<i64>,
        category: &str,
        reference: &str,
        content: &str,
        username: &str,
        nickname: &str,
        applied: i64,
        source: &str,
        now: Timestamp,
    ) -> (r: Result<Feedback, StoreError>)
        requires
            old(store)@.wf(),
        ensures
            (final(store)@, result_view(r)) == match id {
                Some(i) => rewrite_spec(
                    old(store)@,
                    i as int,
                    category@,
                    reference@,
                    content@,
                    username@,
                    nickname@,
                    applied as int,
                    source@,
                    now.micros as int,
                ),
                None => insert_spec(
                    old(store)@,
                    category@,
                    reference@,
                    content@,
                    username@,
                    nickname@,
                    applied as int,
                    source@,
                    now.micros as int,
                ),
            },
            final(store)@.wf(),
    {
        match id {
            Some(i) => store.rewrite(i, category, reference, content, username, nickname, applied, source, now),
            None => store.insert(category, reference, content, username, nickname, applied, source, now),
        }
    }

    /// Rewrites the record `id` with the given fields; its creation stamp stays.
    pub fn update_from(
        store: &mut FeedbackStore,
        id: i64,
        category: &str,
        reference: &str,
        content: &str,
        username: &str,
        nickname: &str,
        applied: i64,
        source: &str,
        now: Timestamp,
    ) -> (r: Result<Feedback, StoreError>)
        requires
            old(store)@.wf(),
        ensures
            (final(store)@, result_view(r)) == rewrite_spec(
                old(store)@,
                id as int,
                category@,
                reference@,
                content@,
                username@,
                nickname@,
                applied as int,
                source@,
                now.micros as int,
            ),
            final(store)@.wf(),
    {
        store.rewrite(id, category, reference, content, username, nickname, applied, source, now)
    }

    /// Inserts a new, not yet applied record stamped `now`.
    pub fn create(
        store: &mut FeedbackStore,
        category: &str,
        reference: &str,
        content: &str,
        username: &str,
        nickname: &str,
        source: &str,
        now: Timestamp,
    ) -> (r: Result<Feedback, StoreError>)
        requires
            old(store)@.wf(),
        ensures
            (final(store)@, result_view(r)) == insert_spec(
                old(store)@,
                category@,
                reference@,
                content@,
                username@,
                nickname@,
                0,
                source@,
                now.micros as int,
            ),
            final(store)@.wf(),
    {
        store.insert(category, reference, content, username, nickname, 0, source, now)
    }
    /// The record with `id`.
    pub fn read(store: &FeedbackStore, id: i64) -> (r: Result<Feedback, StoreError>)
        requires
            store@.wf(),
        ensures
            result_view(r) == read_spec(store@, id as int),
    {
        match store.position(id) {
            None => Err(StoreError::NotFound),
            Some(i) => Ok(store.rows[i].clone()),
        }
    }

    /// The record with `id`; the same lookup as `read`.
    pub fn load(store: &FeedbackStore, id: i64) -> (r: Result<Feedback, StoreError>)
        requires
            store@.wf(),
        ensures
            result_view(r) == read_spec(store@, id as int),
    {
        Feedback::read(store, id)
    }

    /// Every record, in the order they were inserted.
    pub fn read_all(store: &FeedbackStore) -> (r: Vec<Feedback>)
        ensures
            r@.map_values(|f: Feedback| f@) == store@.rows,
    {
        let mut out: Vec<Feedback> = Vec::new();
        let mut i: usize = 0;
        while i < store.rows.len()
            invariant
                i <= store.rows@.len(),
                out@.len() == i,
                forall|k: int| 0 <= k < i ==> out@[k] == store.rows@[k],
            decreases store.rows.len() - i,
        {
            out.push(store.rows[i].clone());
            i = i + 1;
        }
        assert(out@.map_values(|f: Feedback| f@) =~= store@.rows);
        out
    }

    /// Marks the record `id` as applied; only its change stamp moves besides.
    pub fn update(store: &mut FeedbackStore, id: i64, now: Timestamp) -> (r: Result<Feedback, StoreError>)
        requires
            old(store)@.wf(),
        ensures
            (final(store)@, result_view(r)) == mark_applied_spec(old(store)@, id as int, now.micros as int),
            final(store)@.wf(),
    {
        store.mark_applied(id, now)
    }

    /// Removes this record's row; `false`, with the table untouched, when the
    /// record was never stored.
    pub fn delete(&self, store: &mut FeedbackStore) -> (r: bool)
        requires
            old(store)@.wf(),
        ensures
            (final(store)@, r) == delete_spec(old(store)@, self.id as int),
            final(store)@.wf(),
    {
        if self.id > UNSAVED_ID {
            store.remove_id(self.id);
            true
        } else {
            false
        }
    }

    /// Stores this record: an update of its row when it carries a stored id,
    /// else an insert. On success the record takes the stored row's values,
    /// its new id and stamps included; on failure it stays as it was.
    pub fn save(&mut self, store: &mut FeedbackStore, now: Timestamp) -> (r: Result<Feedback, StoreError>)
        requires
            old(store)@.wf(),
        ensures
            (final(store)@, result_view(r)) == save_spec(old(store)@, old(self)@, now.micros as int),
            final(self)@ == saved_record(old(self)@, result_view(r)),
            final(store)@.wf(),
    {
        let r = if self.id > UNSAVED_ID {
            store.rewrite(
                self.id,
                self.category.as_str(),
                self.reference.as_str(),
                self.content.as_str(),
                self.username.as_str(),
                self.nickname.as_str(),
                self.applied,
                self.source.as_str(),
                now,
            )
        } else {
            store.insert(
                self.category.as_str(),
                self.reference.as_str(),
                self.content.as_str(),
                self.username.as_str(),
                self.nickname.as_str(),
                self.applied,
                self.source.as_str(),
                now,
            )
        };
        match &r {
            Ok(row) => {
                *self = row.clone();
            },
            Err(_) => {},
        }
        r
    }
}


/// A record just created reads back unchanged: every field as given, not
/// applied, and both stamps equal.
pub proof fn lemma_create_then_read(
    t: TableView,
    category: Seq<char>,
    reference: Seq<char>,
    content: Seq<char>,
    username: Seq<char>,
    nickname: Seq<char>,
    source: Seq<char>,
    now: int,
)
    requires
        t.wf(),
        insert_spec(t, category, reference, content, username, nickname, 0, source, now).1 is Ok,
    ensures
        ({
            let (t2, r) = insert_spec(
                t,
                category,
                reference,
                content,
                username,
                nickname,
                0,
                source,
                now,
            );
            let row = r->Ok_0;
            &&& read_spec(t2, row.id) == r
            &&& row.category == category && row.reference == reference && row.content == content
            &&& row.username == username && row.nickname == nickname && row.source == source
            &&& row.applied == 0
            &&& row.created_at == row.updated_at
        }),
{
    let (t2, r) = insert_spec(t, category, reference, content, username, nickname, 0, source, now);
    let row = r->Ok_0;
    lemma_push_wf(t, row);
    lemma_index_of(t2, t.rows.len() as int);
}

/// Saving an unsaved record inserts exactly one row holding its fields and
/// gives the record that row's positive id; saving it again updates that same
/// row, changes nothing but the change stamp, and never moves that stamp back
/// (it moves forward when the second save comes later).
pub proof fn lemma_save_inserts_then_updates(t: TableView, rec: FeedbackView, now1: int, now2: int)
    requires
        t.wf(),
        rec.id == UNSAVED_ID,
        save_spec(t, rec, now1).1 is Ok,
    ensures
        ({
            let (t1, r1) = save_spec(t, rec, now1);
            let rec1 = saved_record(rec, r1);
            let (t2, r2) = save_spec(t1, rec1, now2);
            let rec2 = saved_record(rec1, r2);
            &&& t1.rows == t.rows.push(rec1)
            &&& rec1.id > 0
            &&& rec1 == FeedbackView {
                id: rec1.id,
                created_at: rec1.created_at,
                updated_at: rec1.updated_at,
                ..rec
            }
            &&& rec1.created_at == rec1.updated_at
            &&& r2 is Ok
            &&& t2.rows.len() == t1.rows.len()
            &&& read_spec(t2, rec1.id) == r2
            &&& rec2 == FeedbackView { updated_at: rec2.updated_at, ..rec1 }
            &&& rec2.updated_at >= rec1.updated_at
            &&& now2 > rec1.updated_at ==> rec2.updated_at == now2 > rec1.updated_at
        }),
{
    let (t1, r1) = save_spec(t, rec, now1);
    let rec1 = saved_record(rec, r1);
    lemma_push_wf(t, rec1);
    lemma_index_of(t1, t.rows.len() as int);
    let (t2, r2) = save_spec(t1, rec1, now2);
    let row = r2->Ok_0;
    let i = t.rows.len() as int;
    lemma_replace_wf(t1, i, row);
    lemma_index_of(t2, i);
}

/// Saving a record whose id is stored updates that row in place: no row is
/// added, the id and the row's creation stamp stay, the change stamp never
/// moves back, and the row then holds the record's fields. A record with an
/// empty category or content is refused and changes nothing.
pub proof fn lemma_save_updates_stored(t: TableView, rec: FeedbackView, now: int)
    requires
        t.wf(),
        is_persisted(rec.id),
        has_id(t.rows, rec.id),
    ensures
        ({
            let (t2, r) = save_spec(t, rec, now);
            let before = read_spec(t, rec.id)->Ok_0;
            let after = saved_record(rec, r);
            &&& t2.rows.len() == t.rows.len()
            &&& t2.next_id == t.next_id
            &&& valid_fields(rec.category, rec.content) ==> {
                &&& r is Ok
                &&& read_spec(t2, rec.id) == r
                &&& after == FeedbackView {
                    created_at: before.created_at,
                    updated_at: after.updated_at,
                    ..rec
                }
                &&& after.updated_at >= before.updated_at
                &&& now > before.updated_at ==> after.updated_at == now
            }
            &&& !valid_fields(rec.category, rec.content) ==> r == Err::<FeedbackView, StoreError>(
                StoreError::Validation,
            ) && t2 == t
        }),
{
    let i = index_of(t.rows, rec.id);
    let (t2, r) = save_spec(t, rec, now);
    if valid_fields(rec.category, rec.content) {
        assert(row_wf(t.rows[i]));
        lemma_replace_wf(t, i, r->Ok_0);
        lemma_index_of(t2, i);
    }
}

/// Deleting an unsaved record answers `false` and leaves the table as it was;
/// deleting a stored one answers `true`, and its id then reads as not found.
pub proof fn lemma_delete(t: TableView, id: int)
    requires
        t.wf(),
    ensures
        id == UNSAVED_ID ==> delete_spec(t, id) == (t, false),
        is_persisted(id) ==> delete_spec(t, id).1 && read_spec(delete_spec(t, id).0, id) == Err::<
            FeedbackView,
            StoreError,
        >(StoreError::NotFound),
{
    if is_persisted(id) && has_id(t.rows, id) {
        let i = index_of(t.rows, id);
        lemma_remove_wf(t, i);
    }
}

/// Marking a stored record as applied sets `applied` and moves only the change
/// stamp, never backwards; the record reads back so.
pub proof fn lemma_update_marks_applied(t: TableView, id: int, now: int)
    requires
        t.wf(),
        has_id(t.rows, id),
    ensures
        ({
            let (t2, r) = mark_applied_spec(t, id, now);
            let before = read_spec(t, id)->Ok_0;
            let after = r->Ok_0;
            &&& r is Ok
            &&& read_spec(t2, id) == r
            &&& after.applied == 1
            &&& after == FeedbackView { applied: 1, updated_at: after.updated_at, ..before }
            &&& after.updated_at >= before.updated_at
        }),
{
    let i = index_of(t.rows, id);
    let (t2, r) = mark_applied_spec(t, id, now);
    assert(row_wf(t.rows[i]));
    lemma_replace_wf(t, i, r->Ok_0);
    lemma_index_of(t2, i);
}

} // verus!
