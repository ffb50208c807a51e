//! The analysis behind the summary: what each record of a dump adds to the
//! statistics.

use vstd::prelude::*;
use vstd::string::*;
use vstd::utf8::encode_utf8;
use crate::mft::decode::attribute_views;
use crate::mft::decode::AttributeInfo;
use crate::mft::decode::AttributeInfoView;
use crate::mft::record::record_attributes;
use crate::mft::record::record_fault;
use crate::mft::record::record_healthy;
use crate::mft::record::restored;
use crate::mft::record::first_attribute_offset_of;
use crate::mft::record::ParsedRecord;
use crate::mft::record::RecordFault;
use crate::mft::attributes::first_attribute_type;
use crate::mft::stream::record_count;
use crate::mft::stream::record_size_of;
use crate::mft::stream::slot_of;
use crate::mft::stream::MftEntryIterator;
use crate::summary::app::MftSummaryApp;
use crate::summary::progress::progress_message_views;
use crate::summary::progress::ErrorKind;
use crate::summary::progress::ProgressMessage;
use crate::summary::progress::ProgressMessageView;
use crate::summary::progress::SummaryError;
use crate::summary::progress::SummaryErrorView;
use crate::text::chars_of;
use crate::tui::worker::fault_message;
use crate::tui::worker::fault_text;

verus! {

/// Number of bytes of a record that the estimate of the record count
/// assumes.
pub const ESTIMATE_RECORD_SIZE: u64 = 1024;

/// The name of an attribute type.
pub open spec fn type_name_text(type_code: u32) -> Seq<char> {
    if type_code == 0x10 {
        "StandardInformation"@
    } else if type_code == 0x20 {
        "AttributeList"@
    } else if type_code == 0x30 {
        "FileName"@
    } else if type_code == 0x40 {
        "ObjectId"@
    } else if type_code == 0x50 {
        "SecurityDescriptor"@
    } else if type_code == 0x60 {
        "VolumeName"@
    } else if type_code == 0x70 {
        "VolumeInformation"@
    } else if type_code == 0x80 {
        "DATA"@
    } else if type_code == 0x90 {
        "IndexRoot"@
    } else if type_code == 0xA0 {
        "IndexAllocation"@
    } else if type_code == 0xB0 {
        "BITMAP"@
    } else if type_code == 0xC0 {
        "ReparsePoint"@
    } else if type_code == 0xD0 {
        "EaInformation"@
    } else if type_code == 0xE0 {
        "EA"@
    } else if type_code == 0x100 {
        "LoggedUtilityStream"@
    } else {
        "Unknown"@
    }
}

/// The name of an attribute type.
pub fn attribute_type_name(type_code: u32) -> (s: &'static str)
    ensures
        s@ == type_name_text(type_code),
{
    if type_code == 0x10 {
        "StandardInformation"
    } else if type_code == 0x20 {
        "AttributeList"
    } else if type_code == 0x30 {
        "FileName"
    } else if type_code == 0x40 {
        "ObjectId"
    } else if type_code == 0x50 {
        "SecurityDescriptor"
    } else if type_code == 0x60 {
        "VolumeName"
    } else if type_code == 0x70 {
        "VolumeInformation"
    } else if type_code == 0x80 {
        "DATA"
    } else if type_code == 0x90 {
        "IndexRoot"
    } else if type_code == 0xA0 {
        "IndexAllocation"
    } else if type_code == 0xB0 {
        "BITMAP"
    } else if type_code == 0xC0 {
        "ReparsePoint"
    } else if type_code == 0xD0 {
        "EaInformation"
    } else if type_code == 0xE0 {
        "EA"
    } else if type_code == 0x100 {
        "LoggedUtilityStream"
    } else {
        "Unknown"
    }
}

/// The length of a name in bytes, as UTF-8.
pub open spec fn byte_len(name: Seq<char>) -> usize {
    encode_utf8(name).len() as usize
}

/// Whether a name is worth showing as a sample: not a system file and not
/// `.`, longer than two bytes, and either with a dot in it or longer than
/// eight bytes.
pub open spec fn sample_name(name: Seq<char>) -> bool {
    &&& name.len() > 0
    &&& name[0] != '$'
    &&& name != seq!['.']
    &&& byte_len(name) > 2
    &&& (name.contains('.') || byte_len(name) > 8)
}

fn has_dot(chars: &Vec<char>) -> (b: bool)
    ensures
        b == chars@.contains('.'),
{
    let mut i: usize = 0;
    while i < chars.len()
        invariant
            i <= chars.len(),
            forall|j: int| 0 <= j < i ==> chars@[j] != '.',
        decreases chars.len() - i,
    {
        if chars[i] == '.' {
            return true;
        }
        i += 1;
    }
    false
}

/// Tests whether a name is worth showing as a sample.
pub fn is_sample_name(name: &String) -> (b: bool)
    ensures
        b == sample_name(name@),
{
    let chars = chars_of(name.as_str());
    if chars.len() == 0 {
        return false;
    }
    if chars[0] == '$' {
        return false;
    }
    if chars.len() == 1 && chars[0] == '.' {
        assert(name@ =~= seq!['.']);
        return false;
    }
    assert(name@ != seq!['.']) by {
        if name@ == seq!['.'] {
            assert(seq!['.'].len() == 1);
            assert(seq!['.'][0] == '.');
        }
    }
    let bytes = name.as_str().len();
    bytes > 2 && (has_dot(&chars) || bytes > 8)
}

/// The sample name that the attributes give: the last file name among them
/// that is worth showing.
pub open spec fn sample_among(attributes: Seq<AttributeInfoView>) -> Option<Seq<char>>
    decreases attributes.len(),
{
    if attributes.len() == 0 {
        None
    } else {
        match attributes.last() {
            AttributeInfoView::FileName(n) => if sample_name(n.name) {
                Some(n.name)
            } else {
                sample_among(attributes.drop_last())
            },
            _ => sample_among(attributes.drop_last()),
        }
    }
}

/// The error that is recorded for an attribute that cannot be decoded.
pub open spec fn unreadable_attribute() -> SummaryErrorView {
    SummaryErrorView {
        kind: ErrorKind::Attribute,
        message: "an attribute could not be decoded"@,
    }
}

/// One error for each attribute that could not be decoded.
pub open spec fn attribute_errors(attributes: Seq<AttributeInfoView>) -> Seq<ProgressMessageView>
    decreases attributes.len(),
{
    if attributes.len() == 0 {
        Seq::empty()
    } else {
        match attributes.last() {
            AttributeInfoView::Unreadable => attribute_errors(attributes.drop_last()).push(
                ProgressMessageView::ParseError(unreadable_attribute()),
            ),
            _ => attribute_errors(attributes.drop_last()),
        }
    }
}

/// The messages of one record. An unhealthy record gives an error and counts
/// as invalid. A healthy one gives an error for each attribute that cannot
/// be decoded and counts as valid, with its sample name and the type of its
/// first attribute.
pub open spec fn record_summary(
    fault: Option<RecordFault>,
    first_attribute: Option<u32>,
    attributes: Seq<AttributeInfoView>,
) -> Seq<ProgressMessageView> {
    match fault {
        Some(f) => seq![
            ProgressMessageView::ParseError(
                SummaryErrorView { kind: ErrorKind::Entry, message: fault_text(f) },
            ),
            ProgressMessageView::EntryProcessed {
                is_valid: false,
                filename_found: None,
                attribute_type: None,
            },
        ],
        None => attribute_errors(attributes).push(
            ProgressMessageView::EntryProcessed {
                is_valid: true,
                filename_found: sample_among(attributes),
                attribute_type: first_attribute,
            },
        ),
    }
}

/// Writes the messages of one parsed record.
pub fn summarize_record(record: &ParsedRecord) -> (messages: Vec<ProgressMessage>)
    ensures
        progress_message_views(messages@) == record_summary(
            record.fault,
            record.first_attribute,
            attribute_views(record.attributes@),
        ),
{
    let mut messages: Vec<ProgressMessage> = Vec::new();
    assert(progress_message_views(messages@) =~= Seq::empty());
    match record.fault {
        Some(f) => {
            messages.push(
                ProgressMessage::ParseError(
                    SummaryError { kind: ErrorKind::Entry, message: fault_message(f) },
                ),
            );
            messages.push(
                ProgressMessage::EntryProcessed {
                    is_valid: false,
                    filename_found: None,
                    attribute_type: None,
                },
            );
            assert(progress_message_views(messages@) =~= record_summary(
                record.fault,
                record.first_attribute,
                attribute_views(record.attributes@),
            ));
        },
        None => {
            let ghost views = attribute_views(record.attributes@);
            let mut sample: Option<String> = None;
            let mut i: usize = 0;
            assert(views.take(0) =~= Seq::<AttributeInfoView>::empty());
            while i < record.attributes.len()
                invariant
                    i <= record.attributes.len(),
                    views == attribute_views(record.attributes@),
                    progress_message_views(messages@) == attribute_errors(views.take(i as int)),
                    match sample {
                        Some(s) => sample_among(views.take(i as int)) == Some(s@),
                        None => sample_among(views.take(i as int)) is None,
                    },
                decreases record.attributes.len() - i,
            {
                proof {
                    assert(views.take(i + 1).drop_last() =~= views.take(i as int));
                    assert(views.take(i + 1).last() == record.attributes@[i as int]@);
                }
                let ghost before = progress_message_views(messages@);
                match &record.attributes[i] {
                    AttributeInfo::FileName(n) => {
                        if is_sample_name(&n.name) {
                            sample = Some(n.name.clone());
                        }
                    },
                    AttributeInfo::Unreadable => {
                        messages.push(
                            ProgressMessage::ParseError(
                                SummaryError {
                                    kind: ErrorKind::Attribute,
                                    message: String::from_str("an attribute could not be decoded"),
                                },
                            ),
                        );
                        assert(progress_message_views(messages@) =~= before.push(
                            ProgressMessageView::ParseError(unreadable_attribute()),
                        ));
                    },
                    AttributeInfo::Other => {},
                }
                i += 1;
            }
            assert(views.take(record.attributes.len() as int) =~= views);
            let ghost errors = progress_message_views(messages@);
            let ghost found = sample_among(views);
            messages.push(
                ProgressMessage::EntryProcessed {
                    is_valid: true,
                    filename_found: sample,
                    attribute_type: record.first_attribute,
                },
            );
            assert(progress_message_views(messages@) =~= errors.push(
                ProgressMessageView::EntryProcessed {
                    is_valid: true,
                    filename_found: found,
                    attribute_type: record.first_attribute,
                },
            ));
        },
    }
    messages
}

/// The messages of the record in `slot` at position `record_number`.
pub open spec fn slot_summary(slot: Seq<u8>, record_number: u64) -> Seq<ProgressMessageView> {
    record_summary(
        record_fault(slot),
        if record_healthy(slot) {
            first_attribute_type(restored(slot), first_attribute_offset_of(slot))
        } else {
            None
        },
        record_attributes(slot, record_number),
    )
}

/// The messages of the first `n` records of a stream.
pub open spec fn records_summary(bytes: Seq<u8>, size: int, n: int) -> Seq<ProgressMessageView>
    decreases n,
{
    if n <= 0 {
        Seq::empty()
    } else {
        records_summary(bytes, size, n - 1) + slot_summary(
            slot_of(bytes, size, n - 1),
            (n - 1) as u64,
        )
    }
}

/// The number of records that a dump of `file_size` bytes is expected to
/// hold: one for each 1024 bytes.
pub open spec fn estimated_records(file_size: u64) -> usize {
    if file_size / ESTIMATE_RECORD_SIZE > usize::MAX {
        usize::MAX
    } else {
        (file_size / ESTIMATE_RECORD_SIZE) as usize
    }
}

/// The number of records that a dump of `file_size` bytes is expected to
/// hold.
pub fn estimate_records(file_size: u64) -> (n: usize)
    ensures
        n == estimated_records(file_size),
{
    let n = file_size / ESTIMATE_RECORD_SIZE;
    if n > usize::MAX as u64 {
        usize::MAX
    } else {
        n as usize
    }
}

/// The messages of the analysis of a dump of `file_size` bytes of which
/// `bytes` were read: an estimate of the number of records, the messages of
/// each whole record, and the completion.
pub open spec fn analysis_messages(file_size: u64, bytes: Seq<u8>) -> Seq<ProgressMessageView> {
    seq![ProgressMessageView::EstimatedTotal(estimated_records(file_size))]
        + records_summary(
        bytes,
        record_size_of(bytes),
        record_count(bytes.len() as int, record_size_of(bytes)),
    ) + seq![ProgressMessageView::Complete]
}

/// Analyzes a dump and returns the messages for the statistics, in order.
pub fn analyze_mft_in_background(file_size: u64, mft_bytes: &[u8]) -> (messages: Vec<
    ProgressMessage,
>)
    ensures
        progress_message_views(messages@) == analysis_messages(file_size, mft_bytes@),
{
    let ghost bytes = mft_bytes@;
    let ghost size = record_size_of(bytes);
    let ghost total = record_count(bytes.len() as int, size);
    let mut messages: Vec<ProgressMessage> = Vec::new();
    messages.push(ProgressMessage::EstimatedTotal(estimate_records(file_size)));
    let ghost head = seq![ProgressMessageView::EstimatedTotal(estimated_records(file_size))];
    assert(progress_message_views(messages@) =~= head + records_summary(bytes, size, 0));
    let mut records = MftEntryIterator::new(mft_bytes);
    loop
        invariant
            records.wf(),
            records.bytes() == bytes,
            records.record_size() == size,
            records.count() == total,
            0 <= records.position() <= total,
            progress_message_views(messages@) == head + records_summary(
                bytes,
                size,
                records.position(),
            ),
        ensures
            progress_message_views(messages@) == head + records_summary(bytes, size, total),
        decreases total - records.position(),
    {
        let ghost at = records.position();
        let ghost before = progress_message_views(messages@);
        match records.next() {
            Some(record) => {
                let mut more = summarize_record(&record);
                let ghost step = progress_message_views(more@);
                messages.append(&mut more);
                proof {
                    assert(progress_message_views(messages@) =~= before + step);
                    crate::mft::record::fault_free_is_healthy(slot_of(bytes, size, at));
                    assert(step == slot_summary(slot_of(bytes, size, at), at as u64));
                    assert((head + records_summary(bytes, size, at)) + step =~= head + (
                    records_summary(bytes, size, at) + step));
                }
            },
            None => {
                break ;
            },
        }
    }
    let ghost body = progress_message_views(messages@);
    messages.push(ProgressMessage::Complete);
    assert(progress_message_views(messages@) =~= body + seq![ProgressMessageView::Complete]);
    messages
}

/// Opens the summary front end on one dump, at the time `now` on the
/// caller's clock.
pub fn summarize_mft_file(
    mft_file: String,
    _verbose: bool,
    _show_paths: bool,
    _max_entries: Option<usize>,
    now: u64,
) -> (app: MftSummaryApp)
    ensures
        app.mft_file@ == mft_file@,
        app.analysis_progress@.wf(),
        app.analysis_progress@.total_entries == 0,
        app.is_running_spec(),
{
    MftSummaryApp::new(mft_file, now)
}

} // verus!
