//! Regenerating the zone file.
//!
//! The zone file lists every unexpired record; its serial is the newest
//! record id, so that each new write yields a newer zone.

use vstd::prelude::*;
use crate::models::{read_record, record_of_row, valid_record_row, Record, RecordView, Row};

verus! {

/// What the zone file template is rendered with.
pub struct ZoneFileContext {
    pub serial: u64,
    pub records: Vec<Record>,
}

/// The mathematical value of a [`ZoneFileContext`].
pub struct ZoneFileContextView {
    pub serial: u64,
    pub records: Seq<RecordView>,
}

impl View for ZoneFileContext {
    type V = ZoneFileContextView;

    open spec fn view(&self) -> ZoneFileContextView {
        ZoneFileContextView { serial: self.serial, records: self.records@.map_values(|r: Record| r@) }
    }
}

/// A row of the zone query: the four record columns, then the newest id.
pub open spec fn valid_zone_row(row: &Row) -> bool {
    &&& valid_record_row(row)
    &&& row.arity() >= 5
    &&& row.columns@[4].uint is Some
}

/// Every row that was read is a zone row (`None` stands for a row the
/// driver failed to read).
pub open spec fn valid_zone_rows(rows: Seq<Option<Row>>) -> bool {
    forall|i: int| 0 <= i < rows.len() ==> (#[trigger] rows[i] matches Some(row) ==> valid_zone_row(&row))
}

/// The zone of the rows: the record of each row that was read, in order, and
/// as serial the newest id of the last such row (0 when there is none).
pub open spec fn zone_of_rows(rows: Seq<Option<Row>>) -> ZoneFileContextView
    decreases rows.len(),
{
    if rows.len() == 0 {
        ZoneFileContextView { serial: 0, records: seq![] }
    } else {
        let prev = zone_of_rows(rows.drop_last());
        match rows.last() {
            None => prev,
            Some(row) => ZoneFileContextView {
                serial: row.uint_at(4)->0,
                records: prev.records.push(record_of_row(&row)),
            },
        }
    }
}

/// Number of rows that were read.
pub open spec fn rows_read(rows: Seq<Option<Row>>) -> nat
    decreases rows.len(),
{
    if rows.len() == 0 {
        0
    } else {
        rows_read(rows.drop_last()) + if rows.last() is Some {
            1nat
        } else {
            0nat
        }
    }
}

/// The zone holds one record per row read.
pub proof fn lemma_zone_has_one_record_per_row(rows: Seq<Option<Row>>)
    ensures
        zone_of_rows(rows).records.len() == rows_read(rows),
    decreases rows.len(),
{
    if rows.len() > 0 {
        lemma_zone_has_one_record_per_row(rows.drop_last());
    }
}

/// Every row that was read gives a record, at its place among the rows read:
/// the record's name, token, expiry and key are the text of the row's first
/// four columns, in that order.
pub proof fn lemma_zone_records_are_the_rows(rows: Seq<Option<Row>>, i: int)
    requires
        0 <= i < rows.len(),
        rows[i] is Some,
    ensures
        rows_read(rows.take(i)) < zone_of_rows(rows).records.len(),
        ({
            let row = rows[i]->0;
            zone_of_rows(rows).records[rows_read(rows.take(i)) as int] == RecordView {
                name: row.text_at(0)->0,
                token: row.text_at(1)->0,
                expiration: row.text_at(2)->0,
                apikey: row.text_at(3)->0,
            }
        }),
    decreases rows.len(),
{
    let prev = rows.drop_last();
    lemma_zone_has_one_record_per_row(prev);
    if i == rows.len() - 1 {
        assert(rows.take(i) =~= prev);
        assert(rows.last() == rows[i]);
    } else {
        lemma_zone_records_are_the_rows(prev, i);
        assert(prev.take(i) =~= rows.take(i));
        assert(prev[i] == rows[i]);
    }
}

/// The serial is the id (fifth column) on the last row that was read, and 0
/// when no row was read.
pub proof fn lemma_zone_serial(rows: Seq<Option<Row>>)
    ensures
        (forall|j: int| 0 <= j < rows.len() ==> #[trigger] rows[j] is None) ==> zone_of_rows(rows).serial
            == 0,
        forall|i: int|
            0 <= i < rows.len() && #[trigger] rows[i] is Some && (forall|j: int|
                i < j < rows.len() ==> #[trigger] rows[j] is None) ==> zone_of_rows(rows).serial
                == rows[i]->0.uint_at(4)->0,
    decreases rows.len(),
{
    if rows.len() > 0 {
        let prev = rows.drop_last();
        lemma_zone_serial(prev);
        assert forall|i: int|
            0 <= i < rows.len() && #[trigger] rows[i] is Some && (forall|j: int|
                i < j < rows.len() ==> #[trigger] rows[j] is None) implies zone_of_rows(rows).serial
            == rows[i]->0.uint_at(4)->0 by {
            if i < rows.len() - 1 {
                assert(rows[rows.len() - 1] is None);
                assert(prev[i] == rows[i]);
                assert forall|j: int| i < j < prev.len() implies #[trigger] prev[j] is None by {
                    assert(rows[j] is None);
                }
            }
        }
        if forall|j: int| 0 <= j < rows.len() ==> #[trigger] rows[j] is None {
            assert(rows[rows.len() - 1] is None);
            assert forall|j: int| 0 <= j < prev.len() implies #[trigger] prev[j] is None by {
                assert(rows[j] is None);
            }
        }
    }
}

impl ZoneFileContext {
    /// The zone of the rows of the zone query, skipping rows that failed to read.
    pub fn from_rows(rows: &Vec<Option<Row>>) -> (z: ZoneFileContext)
        requires
            valid_zone_rows(rows@),
        ensures
            z@ == zone_of_rows(rows@),
    {
        let mut serial: u64 = 0;
        let mut records: Vec<Record> = Vec::new();
        let n = rows.len();
        let mut i: usize = 0;
        assert(rows@.take(0) =~= Seq::<Option<Row>>::empty());
        assert(records@.map_values(|r: Record| r@) =~= Seq::<RecordView>::empty());
        while i < n
            invariant
                n == rows@.len(),
                0 <= i <= n,
                valid_zone_rows(rows@),
                (ZoneFileContextView { serial, records: records@.map_values(|r: Record| r@) })
                    == zone_of_rows(rows@.take(i as int)),
            decreases n - i,
        {
            proof {
                assert(rows@.take(i + 1).drop_last() =~= rows@.take(i as int));
                assert(rows@.take(i + 1).last() == rows@[i as int]);
            }
            match &rows[i] {
                Some(row) => {
                    assert(rows@[i as int] matches Some(r) ==> valid_zone_row(&r));
                    serial = match row.columns[4].uint {
                        Some(v) => v,
                        None => 0,
                    };
                    let ghost old_records = records@;
                    records.push(read_record(row));
                    assert(records@.map_values(|r: Record| r@) =~= old_records.map_values(
                        |r: Record| r@,
                    ).push(record_of_row(row)));
                },
                None => {},
            }
            i = i + 1;
        }
        assert(rows@.take(n as int) =~= rows@);
        ZoneFileContext { serial, records }
    }

    /// Number of records in the zone.
    pub fn record_count(&self) -> (n: usize)
        ensures
            n == self@.records.len(),
    {
        self.records.len()
    }
}

/// Why the zone file was not regenerated.
pub enum ZoneUpdateError {
    /// The template path is not configured; carries the reason.
    TemplateUnset(String),
    /// The zone file path is not configured; carries the reason.
    ZoneFileUnset(String),
    /// The template could not be rendered.
    RenderFailed,
    /// The zone file could not be created; carries the reason.
    CreateFailed(String),
    /// The zone file could not be written; carries the reason.
    WriteFailed(String),
}

/// The message reported for each failure.
pub open spec fn zone_error_text(e: ZoneUpdateError) -> Seq<char> {
    match e {
        ZoneUpdateError::TemplateUnset(why) =>
            "DNS01_ZONETEMPLATE environment variable is undefined: "@ + why@,
        ZoneUpdateError::ZoneFileUnset(why) => "DNS01_ZONEFILE environment variable is undefined: "@
            + why@,
        ZoneUpdateError::RenderFailed => "Failed to render template"@,
        ZoneUpdateError::CreateFailed(why) => "Failed to create zone file: "@ + why@,
        ZoneUpdateError::WriteFailed(why) => why@,
    }
}

impl ZoneUpdateError {
    /// The message reported for this failure.
    pub fn message(&self) -> (m: String)
        ensures
            m@ == zone_error_text(*self),
    {
        match self {
            ZoneUpdateError::TemplateUnset(why) => {
                let mut m = String::from_str("DNS01_ZONETEMPLATE environment variable is undefined: ");
                m.append(why.as_str());
                m
            },
            ZoneUpdateError::ZoneFileUnset(why) => {
                let mut m = String::from_str("DNS01_ZONEFILE environment variable is undefined: ");
                m.append(why.as_str());
                m
            },
            ZoneUpdateError::RenderFailed => String::from_str("Failed to render template"),
            ZoneUpdateError::CreateFailed(why) => {
                let mut m = String::from_str("Failed to create zone file: ");
                m.append(why.as_str());
                m
            },
            ZoneUpdateError::WriteFailed(why) => why.clone(),
        }
    }
}

} // verus!
