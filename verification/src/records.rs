//! Publishing a challenge record.
//!
//! A request names the record, carries the token to publish, the caller's API
//! key and a time to live. The request is checked, the key must exist, and a
//! record of that name may only be replaced by the key that owns it. The
//! database work stays with the caller: a [`RecordPublisher`] holds the request
//! and the step it has reached, and decides from each database answer what to
//! do next.

use vstd::prelude::*;
use crate::models::{read_record, record_of_row, valid_record_row, Record, RecordView, Row};
use crate::text::{byte_len, len_fits, utf8_len};
use vstd::utf8::encode_utf8;

verus! {

/// Longest record name, in bytes (one DNS label).
pub const MAX_NAME_LEN: usize = 63;

/// Shortest record name, in bytes.
pub const MIN_NAME_LEN: usize = 3;

/// Shortest token, in bytes.
pub const MIN_TOKEN_LEN: usize = 32;

/// Length of every API key, in bytes.
pub const APIKEY_LEN: usize = 32;

/// Shortest time to live, in seconds.
pub const MIN_TTL: u32 = 60;

/// Longest time to live, in seconds (one day).
pub const MAX_TTL: u32 = 86400;

/// A request to publish a challenge token.
pub struct RecordData {
    pub apikey: String,
    pub name: String,
    pub token: String,
    pub ttl: u32,
}

/// The mathematical value of a [`RecordData`].
pub struct RecordDataView {
    pub apikey: Seq<char>,
    pub name: Seq<char>,
    pub token: Seq<char>,
    pub ttl: u32,
}

impl View for RecordData {
    type V = RecordDataView;

    open spec fn view(&self) -> RecordDataView {
        RecordDataView { apikey: self.apikey@, name: self.name@, token: self.token@, ttl: self.ttl }
    }
}

/// The UTF-8 lengths of the request's strings fit in a `usize`.
pub open spec fn request_fits(d: RecordDataView) -> bool {
    len_fits(d.apikey) && len_fits(d.name) && len_fits(d.token)
}

/// Why a record was not published.
#[derive(Debug, Clone, Copy, PartialEq, Eq, Structural)]
pub enum RecordError {
    NameTooLong,
    NameTooShort,
    InvalidToken,
    InvalidApikey,
    UnknownApikey,
    TtlTooShort,
    TtlTooLong,
    NotOwner,
    NotCreated,
}

/// The message shown for each refusal.
pub open spec fn record_error_text(e: RecordError) -> Seq<char> {
    match e {
        RecordError::NameTooLong =>
            "record names cannot be longer than 63 characters due to limitations in the dns specification"@,
        RecordError::NameTooShort => "record names must be at least 3 characters, but preferably longer"@,
        RecordError::InvalidToken => "the provided token does not appear to be valid"@,
        RecordError::InvalidApikey => "the apikey is not valid"@,
        RecordError::UnknownApikey => "that apikey does not exist"@,
        RecordError::TtlTooShort =>
            "ttl must be at least 60 seconds. You risk LetsEncrypt missing the update if less than that."@,
        RecordError::TtlTooLong => "ttl must be less than 24h (86400 seconds)"@,
        RecordError::NotOwner => "record with that name already exists, and you don't own it"@,
        RecordError::NotCreated => "could not create record"@,
    }
}

impl RecordError {
    /// The message shown for this refusal.
    pub fn message(&self) -> (m: &'static str)
        ensures
            m@ == record_error_text(*self),
    {
        match self {
            RecordError::NameTooLong =>
                "record names cannot be longer than 63 characters due to limitations in the dns specification",
            RecordError::NameTooShort => "record names must be at least 3 characters, but preferably longer",
            RecordError::InvalidToken => "the provided token does not appear to be valid",
            RecordError::InvalidApikey => "the apikey is not valid",
            RecordError::UnknownApikey => "that apikey does not exist",
            RecordError::TtlTooShort =>
                "ttl must be at least 60 seconds. You risk LetsEncrypt missing the update if less than that.",
            RecordError::TtlTooLong => "ttl must be less than 24h (86400 seconds)",
            RecordError::NotOwner => "record with that name already exists, and you don't own it",
            RecordError::NotCreated => "could not create record",
        }
    }
}

/// The first check on the request's own fields that fails, if any, in the
/// order name too long, name too short, token too short, key of wrong length.
pub open spec fn input_error(d: RecordDataView) -> Option<RecordError> {
    if byte_len(d.name) > MAX_NAME_LEN {
        Some(RecordError::NameTooLong)
    } else if byte_len(d.name) < MIN_NAME_LEN {
        Some(RecordError::NameTooShort)
    } else if byte_len(d.token) < MIN_TOKEN_LEN {
        Some(RecordError::InvalidToken)
    } else if byte_len(d.apikey) != APIKEY_LEN {
        Some(RecordError::InvalidApikey)
    } else {
        None
    }
}

/// The check on the time to live that fails, if any.
pub open spec fn ttl_error(ttl: u32) -> Option<RecordError> {
    if ttl < MIN_TTL {
        Some(RecordError::TtlTooShort)
    } else if ttl > MAX_TTL {
        Some(RecordError::TtlTooLong)
    } else {
        None
    }
}

/// A name already taken may be replaced only by the key that owns it.
pub open spec fn may_replace(existing: Option<RecordView>, apikey: Seq<char>) -> bool {
    match existing {
        Some(r) => r.apikey == apikey,
        None => true,
    }
}

/// What the database answered.
pub enum RecordEvent {
    /// Whether a user holds the request's API key.
    ApikeyLookedUp(bool),
    /// The record of the requested name, if one exists.
    ExistingLookedUp(Option<Record>),
    /// The record was written (replacing any of the same name).
    Stored,
    /// The record of the requested name, read back after the write.
    StoredLookedUp(Option<Record>),
}

/// The values to write for a record: taken from the request.
pub struct RecordWrite {
    pub name: String,
    pub token: String,
    pub apikey: String,
    pub ttl: u32,
}

/// The mathematical value of a [`RecordWrite`].
pub struct RecordWriteView {
    pub name: Seq<char>,
    pub token: Seq<char>,
    pub apikey: Seq<char>,
    pub ttl: u32,
}

impl View for RecordWrite {
    type V = RecordWriteView;

    open spec fn view(&self) -> RecordWriteView {
        RecordWriteView { name: self.name@, token: self.token@, apikey: self.apikey@, ttl: self.ttl }
    }
}

/// The write that request `d` asks for.
pub open spec fn write_of(d: RecordDataView) -> RecordWriteView {
    RecordWriteView { name: d.name, token: d.token, apikey: d.apikey, ttl: d.ttl }
}

/// What to do next.
pub enum RecordAction {
    /// Ask whether a user holds the request's API key.
    LookUpApikey,
    /// Read the record of the requested name.
    LookUpExisting,
    /// Write the record, replacing any of the same name, with these values.
    Store(RecordWrite),
    /// Read the record of the requested name back.
    LookUpStored,
    /// Answer the request.
    Finish(Result<Record, RecordError>),
    /// The event answers nothing that was asked; nothing changed.
    Rejected,
}

/// The step a request has reached: which answer it waits for.
#[derive(Debug, Clone, Copy, PartialEq, Eq, Structural)]
pub enum RecordStage {
    AwaitingApikey,
    AwaitingExisting,
    AwaitingStore,
    AwaitingStored,
    Done,
}

/// The mathematical value of a [`RecordEvent`].
pub enum RecordEventView {
    ApikeyLookedUp(bool),
    ExistingLookedUp(Option<RecordView>),
    Stored,
    StoredLookedUp(Option<RecordView>),
}

/// The mathematical value of a [`RecordAction`].
pub enum RecordActionView {
    LookUpApikey,
    LookUpExisting,
    Store(RecordWriteView),
    LookUpStored,
    Finish(Result<RecordView, RecordError>),
    Rejected,
}

/// The value of an optional record.
pub open spec fn opt_record(r: Option<Record>) -> Option<RecordView> {
    match r {
        Some(r) => Some(r@),
        None => None,
    }
}

impl View for RecordEvent {
    type V = RecordEventView;

    open spec fn view(&self) -> RecordEventView {
        match self {
            RecordEvent::ApikeyLookedUp(b) => RecordEventView::ApikeyLookedUp(*b),
            RecordEvent::ExistingLookedUp(r) => RecordEventView::ExistingLookedUp(opt_record(*r)),
            RecordEvent::Stored => RecordEventView::Stored,
            RecordEvent::StoredLookedUp(r) => RecordEventView::StoredLookedUp(opt_record(*r)),
        }
    }
}

impl View for RecordAction {
    type V = RecordActionView;

    open spec fn view(&self) -> RecordActionView {
        match self {
            RecordAction::LookUpApikey => RecordActionView::LookUpApikey,
            RecordAction::LookUpExisting => RecordActionView::LookUpExisting,
            RecordAction::Store(w) => RecordActionView::Store(w@),
            RecordAction::LookUpStored => RecordActionView::LookUpStored,
            RecordAction::Finish(Ok(r)) => RecordActionView::Finish(Ok(r@)),
            RecordAction::Finish(Err(e)) => RecordActionView::Finish(Err(*e)),
            RecordAction::Rejected => RecordActionView::Rejected,
        }
    }
}

/// The record a lookup by name found, if any.
pub fn found_record(found: Option<Row>) -> (r: Option<Record>)
    requires
        found matches Some(row) ==> valid_record_row(&row),
    ensures
        opt_record(r) == match found {
            Some(row) => Some(record_of_row(&row)),
            None => None,
        },
{
    match found {
        Some(row) => Some(read_record(&row)),
        None => None,
    }
}

/// The stage and first action for request `d`: the request's own fields are
/// checked at once.
pub open spec fn start_outcome(d: RecordDataView) -> (RecordStage, RecordActionView) {
    match input_error(d) {
        Some(err) => (RecordStage::Done, RecordActionView::Finish(Err(err))),
        None => (RecordStage::AwaitingApikey, RecordActionView::LookUpApikey),
    }
}

/// The next stage and action for request `d` at stage `s` after event `e`. An
/// event that does not answer what the stage waits for is rejected and leaves
/// the stage as it was.
pub open spec fn record_next(d: RecordDataView, s: RecordStage, e: RecordEventView) -> (
    RecordStage,
    RecordActionView,
) {
    match (s, e) {
        (RecordStage::AwaitingApikey, RecordEventView::ApikeyLookedUp(found)) => if !found {
            (RecordStage::Done, RecordActionView::Finish(Err(RecordError::UnknownApikey)))
        } else {
            match ttl_error(d.ttl) {
                Some(err) => (RecordStage::Done, RecordActionView::Finish(Err(err))),
                None => (RecordStage::AwaitingExisting, RecordActionView::LookUpExisting),
            }
        },
        (RecordStage::AwaitingExisting, RecordEventView::ExistingLookedUp(existing)) => if may_replace(
            existing,
            d.apikey,
        ) {
            (RecordStage::AwaitingStore, RecordActionView::Store(write_of(d)))
        } else {
            (RecordStage::Done, RecordActionView::Finish(Err(RecordError::NotOwner)))
        },
        (RecordStage::AwaitingStore, RecordEventView::Stored) => (
            RecordStage::AwaitingStored,
            RecordActionView::LookUpStored,
        ),
        (RecordStage::AwaitingStored, RecordEventView::StoredLookedUp(stored)) => (
            RecordStage::Done,
            match stored {
                Some(r) => RecordActionView::Finish(Ok(r)),
                None => RecordActionView::Finish(Err(RecordError::NotCreated)),
            },
        ),
        _ => (s, RecordActionView::Rejected),
    }
}

/// A request being published, and the step it has reached.
pub struct RecordPublisher {
    data: RecordData,
    stage: RecordStage,
}

impl RecordPublisher {
    /// The request.
    pub closed spec fn request(&self) -> RecordDataView {
        self.data@
    }

    /// The step reached.
    pub closed spec fn stage(&self) -> RecordStage {
        self.stage
    }

    /// Takes a request: checks its own fields and gives the first action.
    pub fn start(data: RecordData) -> (res: (RecordPublisher, RecordAction))
        requires
            request_fits(data@),
        ensures
            res.0.request() == data@,
            (res.0.stage(), res.1@) == start_outcome(data@),
    {
        let name_len = utf8_len(&data.name);
        let first = if name_len > MAX_NAME_LEN {
            Err(RecordError::NameTooLong)
        } else if name_len < MIN_NAME_LEN {
            Err(RecordError::NameTooShort)
        } else if utf8_len(&data.token) < MIN_TOKEN_LEN {
            Err(RecordError::InvalidToken)
        } else if utf8_len(&data.apikey) != APIKEY_LEN {
            Err(RecordError::InvalidApikey)
        } else {
            Ok(())
        };
        match first {
            Err(e) => (RecordPublisher { data, stage: RecordStage::Done }, RecordAction::Finish(Err(e))),
            Ok(()) => (RecordPublisher { data, stage: RecordStage::AwaitingApikey }, RecordAction::LookUpApikey),
        }
    }

    /// The step reached.
    pub fn current_stage(&self) -> (s: RecordStage)
        ensures
            s == self.stage(),
    {
        self.stage
    }

    /// Takes the database's answer and gives the next action.
    pub fn step(&mut self, event: RecordEvent) -> (a: RecordAction)
        ensures
            final(self).request() == old(self).request(),
            (final(self).stage(), a@) == record_next(old(self).request(), old(self).stage(), event@),
    {
        match (self.stage, event) {
            (RecordStage::AwaitingApikey, RecordEvent::ApikeyLookedUp(found)) => {
                if !found {
                    self.stage = RecordStage::Done;
                    RecordAction::Finish(Err(RecordError::UnknownApikey))
                } else if self.data.ttl < MIN_TTL {
                    self.stage = RecordStage::Done;
                    RecordAction::Finish(Err(RecordError::TtlTooShort))
                } else if self.data.ttl > MAX_TTL {
                    self.stage = RecordStage::Done;
                    RecordAction::Finish(Err(RecordError::TtlTooLong))
                } else {
                    self.stage = RecordStage::AwaitingExisting;
                    RecordAction::LookUpExisting
                }
            },
            (RecordStage::AwaitingExisting, RecordEvent::ExistingLookedUp(existing)) => {
                let owned_elsewhere = match &existing {
                    Some(record) => !(record.apikey == self.data.apikey),
                    None => false,
                };
                if owned_elsewhere {
                    self.stage = RecordStage::Done;
                    RecordAction::Finish(Err(RecordError::NotOwner))
                } else {
                    self.stage = RecordStage::AwaitingStore;
                    RecordAction::Store(
                        RecordWrite {
                            name: self.data.name.clone(),
                            token: self.data.token.clone(),
                            apikey: self.data.apikey.clone(),
                            ttl: self.data.ttl,
                        },
                    )
                }
            },
            (RecordStage::AwaitingStore, RecordEvent::Stored) => {
                self.stage = RecordStage::AwaitingStored;
                RecordAction::LookUpStored
            },
            (RecordStage::AwaitingStored, RecordEvent::StoredLookedUp(stored)) => {
                self.stage = RecordStage::Done;
                match stored {
                    Some(record) => RecordAction::Finish(Ok(record)),
                    None => RecordAction::Finish(Err(RecordError::NotCreated)),
                }
            },
            _ => RecordAction::Rejected,
        }
    }
}

/// The stage request `d` has reached after the events `events`.
pub open spec fn stage_after(d: RecordDataView, events: Seq<RecordEventView>) -> RecordStage
    decreases events.len(),
{
    if events.len() == 0 {
        start_outcome(d).0
    } else {
        record_next(d, stage_after(d, events.drop_last()), events.last()).0
    }
}

/// The action request `d` answers to the `j`-th of the events `events`.
pub open spec fn action_at(d: RecordDataView, events: Seq<RecordEventView>, j: int) -> RecordActionView {
    record_next(d, stage_after(d, events.take(j)), events[j]).1
}

/// How far along a stage is.
pub open spec fn stage_rank(s: RecordStage) -> int {
    match s {
        RecordStage::AwaitingApikey => 0,
        RecordStage::AwaitingExisting => 1,
        RecordStage::AwaitingStore => 2,
        RecordStage::AwaitingStored => 3,
        RecordStage::Done => 4,
    }
}

/// What every stage short of the end guarantees: the request's fields passed,
/// and from the lookup of the name on, the key was found and the time to live
/// passed.
pub proof fn lemma_stage_facts(d: RecordDataView, events: Seq<RecordEventView>)
    ensures
        stage_after(d, events) != RecordStage::Done ==> input_error(d) is None,
        stage_after(d, events) == RecordStage::AwaitingExisting ==> {
            &&& ttl_error(d.ttl) is None
            &&& exists|i: int|
                0 <= i < events.len() && #[trigger] events[i] == RecordEventView::ApikeyLookedUp(true)
        },
    decreases events.len(),
{
    if events.len() > 0 {
        let prev = events.drop_last();
        lemma_stage_facts(d, prev);
        if stage_after(d, events) == RecordStage::AwaitingExisting {
            if stage_after(d, prev) == RecordStage::AwaitingExisting {
                let i = choose|i: int|
                    0 <= i < prev.len() && #[trigger] prev[i] == RecordEventView::ApikeyLookedUp(true);
                assert(events[i] == prev[i]);
            } else {
                assert(events[events.len() - 1] == events.last());
            }
        }
    }
}

/// No event moves a request back to an earlier stage.
pub proof fn lemma_stage_never_goes_back(
    d: RecordDataView,
    events: Seq<RecordEventView>,
    a: int,
    b: int,
)
    requires
        0 <= a <= b <= events.len(),
    ensures
        stage_rank(stage_after(d, events.take(a))) <= stage_rank(stage_after(d, events.take(b))),
    decreases b - a,
{
    if a < b {
        lemma_stage_never_goes_back(d, events, a, b - 1);
        assert(events.take(b).drop_last() =~= events.take(b - 1));
    }
}

/// Whatever the database answers, and in whatever order: the record is
/// written only with the values of the request, only once the request's
/// fields, the key's existence and the time to live have passed, and only
/// when the name is free or owned by the request's key. A name owned by
/// another key is never overwritten.
pub proof fn lemma_store_only_when_allowed(d: RecordDataView, events: Seq<RecordEventView>, j: int)
    requires
        0 <= j < events.len(),
        action_at(d, events, j) is Store,
    ensures
        action_at(d, events, j) == RecordActionView::Store(write_of(d)),
        input_error(d) is None,
        ttl_error(d.ttl) is None,
        exists|i: int| 0 <= i < j && #[trigger] events[i] == RecordEventView::ApikeyLookedUp(true),
        events[j] matches RecordEventView::ExistingLookedUp(existing) && may_replace(existing, d.apikey),
{
    let p = events.take(j);
    lemma_stage_facts(d, p);
    let i = choose|i: int| 0 <= i < p.len() && #[trigger] p[i] == RecordEventView::ApikeyLookedUp(true);
    assert(events[i] == p[i]);
}

/// Whatever the database answers, a request writes its record at most once.
pub proof fn lemma_store_at_most_once(d: RecordDataView, events: Seq<RecordEventView>, j: int, k: int)
    requires
        0 <= j < events.len(),
        0 <= k < events.len(),
        action_at(d, events, j) is Store,
        action_at(d, events, k) is Store,
    ensures
        j == k,
{
    if j < k {
        assert(events.take(j + 1).drop_last() =~= events.take(j));
        assert(events.take(j + 1).last() == events[j]);
        lemma_stage_never_goes_back(d, events, j + 1, k);
    } else if k < j {
        assert(events.take(k + 1).drop_last() =~= events.take(k));
        assert(events.take(k + 1).last() == events[k]);
        lemma_stage_never_goes_back(d, events, k + 1, j);
    }
}

/// The whole exchange for request `d` when the database says `apikey_found`
/// about the key, `existing` about the name before the write and `stored`
/// about it after: the answer, and whether the record was written.
pub open spec fn record_run(
    d: RecordDataView,
    apikey_found: bool,
    existing: Option<RecordView>,
    stored: Option<RecordView>,
) -> (Result<RecordView, RecordError>, bool) {
    let (s0, a0) = start_outcome(d);
    match a0 {
        RecordActionView::Finish(r) => (r, false),
        _ => {
            let (s1, a1) = record_next(d, s0, RecordEventView::ApikeyLookedUp(apikey_found));
            match a1 {
                RecordActionView::Finish(r) => (r, false),
                _ => {
                    let (s2, a2) = record_next(d, s1, RecordEventView::ExistingLookedUp(existing));
                    match a2 {
                        RecordActionView::Finish(r) => (r, false),
                        _ => {
                            let s3 = record_next(d, s2, RecordEventView::Stored).0;
                            match record_next(d, s3, RecordEventView::StoredLookedUp(stored)).1 {
                                RecordActionView::Finish(r) => (r, true),
                                _ => (Err(RecordError::NotCreated), true),
                            }
                        },
                    }
                },
            }
        },
    }
}

/// Publishing answers with the first check that fails, in the order: the
/// request's own fields, the key's existence, the time to live, ownership of
/// the name, and the record being readable after the write. The record is
/// written exactly when every check up to ownership passes; and a published
/// record is the one read back after the write.
pub proof fn lemma_record_run(
    d: RecordDataView,
    apikey_found: bool,
    existing: Option<RecordView>,
    stored: Option<RecordView>,
)
    ensures
        ({
            let (answer, written) = record_run(d, apikey_found, existing, stored);
            &&& written <==> (input_error(d) is None && apikey_found && ttl_error(d.ttl) is None
                && may_replace(existing, d.apikey))
            &&& answer == if let Some(e) = input_error(d) {
                Err(e)
            } else if !apikey_found {
                Err(RecordError::UnknownApikey)
            } else if let Some(e) = ttl_error(d.ttl) {
                Err(e)
            } else if !may_replace(existing, d.apikey) {
                Err(RecordError::NotOwner)
            } else if let Some(r) = stored {
                Ok(r)
            } else {
                Err(RecordError::NotCreated)
            }
        }),
{
}

/// A request's own fields pass exactly when its name is 3 to 63 bytes long,
/// its token at least 32 bytes and its key exactly 32 bytes (lengths in UTF-8
/// bytes); a token of any length from 32 bytes up passes. When they do not
/// pass, the refusal names the first failing field: a name too long, then too
/// short, then the token, then the key.
pub proof fn lemma_request_fields(d: RecordDataView)
    ensures
        ({
            let name = encode_utf8(d.name).len();
            let token = encode_utf8(d.token).len();
            let key = encode_utf8(d.apikey).len();
            &&& start_outcome(d) == (RecordStage::AwaitingApikey, RecordActionView::LookUpApikey)
                <==> (3 <= name <= 63 && token >= 32 && key == 32)
            &&& name > 63 ==> start_outcome(d).1 == RecordActionView::Finish(Err(RecordError::NameTooLong))
            &&& name < 3 ==> start_outcome(d).1 == RecordActionView::Finish(Err(RecordError::NameTooShort))
            &&& (3 <= name <= 63 && token < 32) ==> start_outcome(d).1 == RecordActionView::Finish(
                Err(RecordError::InvalidToken),
            )
            &&& (3 <= name <= 63 && token >= 32 && key != 32) ==> start_outcome(d).1
                == RecordActionView::Finish(Err(RecordError::InvalidApikey))
            &&& start_outcome(d).1 == RecordActionView::Finish(Err(RecordError::InvalidToken)) <==> (3
                <= name <= 63 && token < 32)
        }),
{
}

/// Once the request's fields passed: an unknown key is refused; a known key
/// goes on to the lookup of the name exactly when the time to live is 60 to
/// 86400 seconds, and otherwise is refused for the bound it misses.
pub proof fn lemma_key_and_ttl(d: RecordDataView)
    ensures
        record_next(d, RecordStage::AwaitingApikey, RecordEventView::ApikeyLookedUp(false)) == (
            RecordStage::Done,
            RecordActionView::Finish(Err(RecordError::UnknownApikey)),
        ),
        record_next(d, RecordStage::AwaitingApikey, RecordEventView::ApikeyLookedUp(true)) == (
            RecordStage::AwaitingExisting,
            RecordActionView::LookUpExisting,
        ) <==> 60 <= d.ttl <= 86400,
        d.ttl < 60 ==> record_next(
            d,
            RecordStage::AwaitingApikey,
            RecordEventView::ApikeyLookedUp(true),
        ).1 == RecordActionView::Finish(Err(RecordError::TtlTooShort)),
        d.ttl > 86400 ==> record_next(
            d,
            RecordStage::AwaitingApikey,
            RecordEventView::ApikeyLookedUp(true),
        ).1 == RecordActionView::Finish(Err(RecordError::TtlTooLong)),
{
}

/// A free name is written; a taken name is written exactly when the record
/// holding it has the request's key; the write holds the request's name,
/// token, key and time to live; the record read back after the write is the
/// answer, and none read back is refused as not created.
pub proof fn lemma_ownership_and_write(d: RecordDataView, r: RecordView)
    ensures
        record_next(d, RecordStage::AwaitingExisting, RecordEventView::ExistingLookedUp(None)).1
            matches RecordActionView::Store(w) && w.name == d.name && w.token == d.token && w.apikey
            == d.apikey && w.ttl == d.ttl,
        record_next(d, RecordStage::AwaitingExisting, RecordEventView::ExistingLookedUp(Some(r))).1
            is Store <==> r.apikey == d.apikey,
        r.apikey != d.apikey ==> record_next(
            d,
            RecordStage::AwaitingExisting,
            RecordEventView::ExistingLookedUp(Some(r)),
        ).1 == RecordActionView::Finish(Err(RecordError::NotOwner)),
        record_next(d, RecordStage::AwaitingStored, RecordEventView::StoredLookedUp(Some(r))).1
            == RecordActionView::Finish(Ok(r)),
        record_next(d, RecordStage::AwaitingStored, RecordEventView::StoredLookedUp(None)).1
            == RecordActionView::Finish(Err(RecordError::NotCreated)),
{
}

} // verus!
