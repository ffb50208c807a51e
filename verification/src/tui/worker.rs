//! The worker of one MFT file: it walks the records, resolves paths and
//! reports what it finds as a sequence of progress events.

use vstd::prelude::*;
use vstd::string::*;
use crate::mft::decode::AttributeInfo;
use crate::mft::decode::AttributeInfoView;
use crate::mft::decode::NameAttribute;
use crate::mft::decode::NameAttributeView;
use crate::mft::decode::attribute_views;
use crate::mft::record::record_attributes;
use crate::mft::record::record_fault;
use crate::mft::record::ParsedRecord;
use crate::mft::record::RecordFault;
use crate::mft::stream::record_count;
use crate::mft::stream::record_size_of;
use crate::mft::stream::slot_of;
use crate::mft::stream::MftEntryIterator;
use crate::paths::UNKNOWN_DRIVE;
use crate::resolver::accept_step;
use crate::resolver::discovered_views;
use crate::resolver::stranded;
use crate::resolver::NamedRecord;
use crate::resolver::NamedRecordView;
use crate::resolver::PathResolver;
use crate::resolver::ResolverModel;
use crate::tui::mainbound_message::message_views;
use crate::tui::mainbound_message::MainboundMessage;
use crate::tui::mainbound_message::MessageView;

verus! {

/// A name stands for a file or directory of the user if it is not empty, does
/// not begin with `$`, and is neither `.` nor `..`.
pub open spec fn usable_name(name: Seq<char>) -> bool {
    &&& name.len() > 0
    &&& name[0] != '$'
    &&& name != seq!['.']
    &&& name != seq!['.', '.']
}

/// The first file name attribute with a usable name.
pub open spec fn first_usable(attributes: Seq<AttributeInfoView>) -> Option<NameAttributeView>
    decreases attributes.len(),
{
    if attributes.len() == 0 {
        None
    } else {
        match attributes[0] {
            AttributeInfoView::FileName(n) => if usable_name(n.name) {
                Some(n)
            } else {
                first_usable(attributes.drop_first())
            },
            _ => first_usable(attributes.drop_first()),
        }
    }
}

/// The named record that record `record_number` is by its attribute `name`.
/// A parent reference of zero stands for "no parent".
pub open spec fn named_record_of(record_number: u64, name: NameAttributeView) -> NamedRecordView {
    NamedRecordView {
        record_number,
        filename: name.name,
        parent_ref: if name.parent_entry == 0 {
            None
        } else {
            Some(name.parent_entry)
        },
        created: name.created,
        modified: name.modified,
        accessed: name.accessed,
    }
}

/// The error text that is logged for a record with the given fault.
pub open spec fn fault_text(fault: RecordFault) -> Seq<char> {
    match fault {
        RecordFault::Truncated => "Error processing entry: the record is truncated"@,
        RecordFault::BadSignature => "Error processing entry: the signature is not FILE"@,
        RecordFault::FixupLayout =>
            "Error processing entry: the update sequence array does not fit the record"@,
        RecordFault::TornSector =>
            "Error processing entry: a sector does not end in the update sequence number"@,
        RecordFault::AttributeTable =>
            "Error processing entry: the attribute table is malformed"@,
    }
}

/// The events of one record and what the record does to the resolver: the
/// health bit first, then an error for an unhealthy record or the paths that
/// a healthy one makes known, and the progress by one record size last.
pub open spec fn record_events(
    file_index: usize,
    size: u64,
    m: ResolverModel,
    slot: Seq<u8>,
    record_number: u64,
) -> (ResolverModel, Seq<MessageView>) {
    let progress = MessageView::Progress { file_index, processed_size: size };
    match record_fault(slot) {
        Some(fault) => (
            m,
            seq![
                MessageView::EntryStatus { file_index, is_healthy: false },
                MessageView::Error { file_index, error: fault_text(fault) },
                progress,
            ],
        ),
        None => {
            let healthy = MessageView::EntryStatus { file_index, is_healthy: true };
            match first_usable(record_attributes(slot, record_number)) {
                None => (m, seq![healthy, progress]),
                Some(name) => {
                    let step = accept_step(m, named_record_of(record_number, name));
                    if step.1.len() > 0 {
                        (
                            step.0,
                            seq![
                                healthy,
                                MessageView::DiscoveredFiles { file_index, files: step.1 },
                                progress,
                            ],
                        )
                    } else {
                        (step.0, seq![healthy, progress])
                    }
                },
            }
        },
    }
}

/// The events of the records `from..to`, starting with the resolver `m`.
pub open spec fn run_records(
    file_index: usize,
    bytes: Seq<u8>,
    size: int,
    m: ResolverModel,
    from: int,
    to: int,
) -> (ResolverModel, Seq<MessageView>)
    decreases to - from,
{
    if from >= to {
        (m, Seq::empty())
    } else {
        let first = record_events(
            file_index,
            size as u64,
            m,
            slot_of(bytes, size, from),
            from as u64,
        );
        let rest = run_records(file_index, bytes, size, first.0, from + 1, to);
        (rest.0, first.1 + rest.1)
    }
}

/// The resolver before any record.
pub open spec fn fresh_resolver(drive_letter: char) -> ResolverModel {
    ResolverModel {
        drive_letter,
        dirs: Map::empty(),
        waiting: Seq::empty(),
        resolved: Seq::empty(),
        blocked: Map::empty(),
    }
}

/// The events that end a stream: the stranded records in one batch, if there
/// are any.
pub open spec fn closing_events(file_index: usize, m: ResolverModel) -> Seq<MessageView> {
    let rest = stranded(m, m.waiting.len());
    if rest.len() > 0 {
        seq![MessageView::DiscoveredFiles { file_index, files: rest }]
    } else {
        Seq::empty()
    }
}

/// The events of a whole MFT byte stream. An empty stream has none; any
/// other states its record size first, then has the events of each whole
/// record in turn, and last the stranded records.
pub open spec fn stream_events(file_index: usize, bytes: Seq<u8>, drive_letter: char) -> Seq<
    MessageView,
> {
    if bytes.len() == 0 {
        Seq::empty()
    } else {
        let size = record_size_of(bytes);
        let run = run_records(
            file_index,
            bytes,
            size,
            fresh_resolver(drive_letter),
            0,
            record_count(bytes.len() as int, size),
        );
        seq![MessageView::EntrySizeDiscovered { file_index, entry_size: size as u64 }] + run.1
            + closing_events(file_index, run.0)
    }
}

/// The events of a whole MFT file: its size, the events of its stream, and
/// the completion.
pub open spec fn file_events(
    file_index: usize,
    file_size: u64,
    bytes: Seq<u8>,
    drive_letter: char,
) -> Seq<MessageView> {
    seq![MessageView::FileSizeDiscovered { file_index, file_size }] + stream_events(
        file_index,
        bytes,
        drive_letter,
    ) + seq![MessageView::Complete { file_index }]
}

/// The drive letter that a dump named `stem` belongs to: its first character
/// in upper case if that is an ASCII letter, `'?'` otherwise.
pub open spec fn drive_letter_of(stem: Seq<char>) -> char {
    if stem.len() > 0 && 'A' <= stem[0] && stem[0] <= 'Z' {
        stem[0]
    } else if stem.len() > 0 && 'a' <= stem[0] && stem[0] <= 'z' {
        ((stem[0] as u8) - 32) as char
    } else {
        UNKNOWN_DRIVE
    }
}

/// Infers the drive letter from the stem of a dump's file name.
pub fn infer_drive_letter(stem: &str) -> (c: char)
    ensures
        c == drive_letter_of(stem@),
{
    if stem.unicode_len() == 0 {
        return UNKNOWN_DRIVE;
    }
    let first = stem.get_char(0);
    if 'A' <= first && first <= 'Z' {
        first
    } else if 'a' <= first && first <= 'z' {
        ((first as u8) - 32) as char
    } else {
        UNKNOWN_DRIVE
    }
}

fn name_is_usable(name: &String) -> (b: bool)
    ensures
        b == usable_name(name@),
{
    let s = name.as_str();
    let len = s.unicode_len();
    if len == 0 {
        return false;
    }
    let first = s.get_char(0);
    if first == '$' {
        return false;
    }
    if len == 1 && first == '.' {
        assert(name@ =~= seq!['.']);
        return false;
    }
    if len == 2 && first == '.' && s.get_char(1) == '.' {
        assert(name@ =~= seq!['.', '.']);
        return false;
    }
    assert(name@ != seq!['.']) by {
        if name@ == seq!['.'] {
            assert(seq!['.'].len() == 1);
            assert(seq!['.'][0] == '.');
        }
    }
    assert(name@ != seq!['.', '.']) by {
        if name@ == seq!['.', '.'] {
            assert(seq!['.', '.'].len() == 2);
            assert(seq!['.', '.'][0] == '.');
            assert(seq!['.', '.'][1] == '.');
        }
    }
    true
}

/// Finds the first file name attribute with a usable name.
pub fn find_usable_name(attributes: &Vec<AttributeInfo>) -> (r: Option<usize>)
    ensures
        match r {
            Some(i) => i < attributes@.len() && attributes@[i as int] is FileName
                && first_usable(attribute_views(attributes@)) == Some(
                attributes@[i as int]->FileName_0@,
            ),
            None => first_usable(attribute_views(attributes@)) is None,
        },
{
    let ghost views = attribute_views(attributes@);
    let mut i: usize = 0;
    assert(views.skip(0) =~= views);
    while i < attributes.len()
        invariant
            i <= attributes.len(),
            views == attribute_views(attributes@),
            first_usable(views) == first_usable(views.skip(i as int)),
        decreases attributes.len() - i,
    {
        proof {
            assert(views.skip(i as int)[0] == views[i as int]);
            assert(views.skip(i as int).drop_first() =~= views.skip(i + 1));
            assert(views[i as int] == attributes@[i as int]@);
        }
        match &attributes[i] {
            AttributeInfo::FileName(n) => {
                if name_is_usable(&n.name) {
                    return Some(i);
                }
            },
            _ => {},
        }
        i += 1;
    }
    assert(views.skip(attributes.len() as int) =~= Seq::<AttributeInfoView>::empty());
    None
}

fn named_record(record_number: u64, name: &NameAttribute) -> (r: NamedRecord)
    ensures
        r@ == named_record_of(record_number, name@),
{
    NamedRecord {
        record_number,
        filename: name.name.clone(),
        parent_ref: if name.parent_entry == 0 {
            None
        } else {
            Some(name.parent_entry)
        },
        created: name.created,
        modified: name.modified,
        accessed: name.accessed,
    }
}

/// The error text that is logged for a record with the given fault.
pub fn fault_message(fault: RecordFault) -> (s: String)
    ensures
        s@ == fault_text(fault),
{
    match fault {
        RecordFault::Truncated => String::from_str(
            "Error processing entry: the record is truncated",
        ),
        RecordFault::BadSignature => String::from_str(
            "Error processing entry: the signature is not FILE",
        ),
        RecordFault::FixupLayout => String::from_str(
            "Error processing entry: the update sequence array does not fit the record",
        ),
        RecordFault::TornSector => String::from_str(
            "Error processing entry: a sector does not end in the update sequence number",
        ),
        RecordFault::AttributeTable => String::from_str(
            "Error processing entry: the attribute table is malformed",
        ),
    }
}

/// Reports one parsed record and feeds it to the resolver.
fn report_record(
    file_index: usize,
    size: u64,
    resolver: &mut PathResolver,
    record: &ParsedRecord,
    Ghost(slot): Ghost<Seq<u8>>,
) -> (events: Vec<MainboundMessage>)
    requires
        old(resolver)@.wf(),
        record.describes(slot, record.record_number),
    ensures
        final(resolver)@.wf(),
        final(resolver)@ == record_events(
            file_index,
            size,
            old(resolver)@,
            slot,
            record.record_number,
        ).0,
        message_views(events@) == record_events(
            file_index,
            size,
            old(resolver)@,
            slot,
            record.record_number,
        ).1,
{
    let mut events: Vec<MainboundMessage> = Vec::new();
    match record.fault {
        Some(fault) => {
            events.push(MainboundMessage::EntryStatus { file_index, is_healthy: false });
            events.push(MainboundMessage::Error { file_index, error: fault_message(fault) });
            events.push(MainboundMessage::Progress { file_index, processed_size: size });
            assert(message_views(events@) =~= seq![
                MessageView::EntryStatus { file_index, is_healthy: false },
                MessageView::Error { file_index, error: fault_text(fault) },
                MessageView::Progress { file_index, processed_size: size },
            ]);
        },
        None => {
            events.push(MainboundMessage::EntryStatus { file_index, is_healthy: true });
            match find_usable_name(&record.attributes) {
                Some(i) => {
                    match &record.attributes[i] {
                        AttributeInfo::FileName(name) => {
                            let files = resolver.accept(named_record(record.record_number, name));
                            if files.len() > 0 {
                                let ghost found = discovered_views(files@);
                                events.push(MainboundMessage::DiscoveredFiles { file_index, files });
                                events.push(
                                    MainboundMessage::Progress { file_index, processed_size: size },
                                );
                                assert(message_views(events@) =~= seq![
                                    MessageView::EntryStatus { file_index, is_healthy: true },
                                    MessageView::DiscoveredFiles { file_index, files: found },
                                    MessageView::Progress { file_index, processed_size: size },
                                ]);
                            } else {
                                events.push(
                                    MainboundMessage::Progress { file_index, processed_size: size },
                                );
                                assert(message_views(events@) =~= seq![
                                    MessageView::EntryStatus { file_index, is_healthy: true },
                                    MessageView::Progress { file_index, processed_size: size },
                                ]);
                            }
                        },
                        _ => {
                            assert(false);
                        },
                    }
                },
                None => {
                    events.push(MainboundMessage::Progress { file_index, processed_size: size });
                    assert(message_views(events@) =~= seq![
                        MessageView::EntryStatus { file_index, is_healthy: true },
                        MessageView::Progress { file_index, processed_size: size },
                    ]);
                },
            }
        },
    }
    events
}

/// The events of one stream, handed out record by record.
pub struct MftWorker<'a> {
    file_index: usize,
    records: MftEntryIterator<'a>,
    resolver: PathResolver,
}

impl<'a> MftWorker<'a> {
    /// The file that the events are about.
    pub closed spec fn index(&self) -> usize {
        self.file_index
    }

    /// The stream that is worked off.
    pub closed spec fn bytes(&self) -> Seq<u8> {
        self.records.bytes()
    }

    /// The size of one record.
    pub closed spec fn record_size(&self) -> int {
        self.records.record_size()
    }

    /// The number of records worked off.
    pub closed spec fn position(&self) -> int {
        self.records.position()
    }

    /// The number of records of the stream.
    pub closed spec fn count(&self) -> int {
        self.records.count()
    }

    /// The resolver as it stands.
    pub closed spec fn resolver(&self) -> ResolverModel {
        self.resolver@
    }

    /// The invariant of the worker.
    pub closed spec fn wf(&self) -> bool {
        &&& self.records.wf()
        &&& self.resolver@.wf()
        &&& self.records.record_size() == record_size_of(self.records.bytes())
        &&& self.records.count() == record_count(
            self.records.bytes().len() as int,
            self.records.record_size(),
        )
        &&& 0 <= self.records.position() <= self.records.count()
        &&& self.records.count() <= usize::MAX
        &&& 0 < self.records.record_size() <= u32::MAX
    }

    /// A worker at the start of the stream `mft_bytes` of file `file_index`.
    pub fn new(file_index: usize, mft_bytes: &'a [u8], drive_letter: char) -> (w: Self)
        ensures
            w.wf(),
            w.index() == file_index,
            w.bytes() == mft_bytes@,
            w.record_size() == record_size_of(mft_bytes@),
            w.count() == record_count(mft_bytes@.len() as int, record_size_of(mft_bytes@)),
            w.position() == 0,
            w.resolver() == fresh_resolver(drive_letter),
    {
        let records = MftEntryIterator::new(mft_bytes);
        let size = records.entry_size();
        let total = records.total_entries();
        MftWorker { file_index, records, resolver: PathResolver::new(drive_letter) }
    }

    /// The size of one record, in bytes.
    pub fn entry_size(&self) -> (size: u64)
        requires
            self.wf(),
        ensures
            size == self.record_size(),
    {
        self.records.entry_size() as u64
    }

    /// The number of records still to work off.
    pub fn remaining(&self) -> (n: usize)
        requires
            self.wf(),
        ensures
            n == self.count() - self.position(),
    {
        self.records.remaining()
    }

    /// Works off the next record and returns its events, or `None` once every
    /// whole record of the stream is worked off.
    pub fn next_events(&mut self) -> (r: Option<Vec<MainboundMessage>>)
        requires
            old(self).wf(),
        ensures
            final(self).wf(),
            final(self).index() == old(self).index(),
            final(self).bytes() == old(self).bytes(),
            final(self).record_size() == old(self).record_size(),
            final(self).count() == old(self).count(),
            old(self).position() >= old(self).count() ==> r is None && final(self).position()
                == old(self).position() && final(self).resolver() == old(self).resolver(),
            old(self).position() < old(self).count() ==> r is Some && final(self).position()
                == old(self).position() + 1 && (final(self).resolver(), message_views(r->0@))
                == record_events(
                old(self).index(),
                old(self).record_size() as u64,
                old(self).resolver(),
                slot_of(old(self).bytes(), old(self).record_size(), old(self).position()),
                old(self).position() as u64,
            ),
    {
        let size = self.records.entry_size() as u64;
        let ghost slot = slot_of(
            self.records.bytes(),
            self.records.record_size(),
            self.records.position(),
        );
        match self.records.next() {
            Some(record) => {
                let events = report_record(
                    self.file_index,
                    size,
                    &mut self.resolver,
                    &record,
                    Ghost(slot),
                );
                Some(events)
            },
            None => None,
        }
    }

    /// Ends the stream: the records that still wait are reported in one
    /// batch, each with its fallback path.
    pub fn finish(self) -> (events: Vec<MainboundMessage>)
        requires
            self.wf(),
        ensures
            message_views(events@) == closing_events(self.index(), self.resolver()),
    {
        let file_index = self.file_index;
        let files = self.resolver.finish();
        let mut events: Vec<MainboundMessage> = Vec::new();
        if files.len() > 0 {
            let ghost rest = discovered_views(files@);
            events.push(MainboundMessage::DiscoveredFiles { file_index, files });
            assert(message_views(events@) =~= seq![
                MessageView::DiscoveredFiles { file_index, files: rest },
            ]);
        } else {
            assert(message_views(events@) =~= Seq::empty());
        }
        events
    }
}

/// The events that open a file: its size, and the record size of its stream
/// unless the stream is empty.
pub open spec fn opening_events(file_index: usize, file_size: u64, bytes: Seq<u8>) -> Seq<
    MessageView,
> {
    if bytes.len() == 0 {
        seq![MessageView::FileSizeDiscovered { file_index, file_size }]
    } else {
        seq![
            MessageView::FileSizeDiscovered { file_index, file_size },
            MessageView::EntrySizeDiscovered {
                file_index,
                entry_size: record_size_of(bytes) as u64,
            },
        ]
    }
}

impl<'a> MftWorker<'a> {
    /// The events that open the file: they go out before any record is
    /// worked off. `file_size` is the size of the dump on disk.
    pub fn start(&self, file_size: u64) -> (events: Vec<MainboundMessage>)
        requires
            self.wf(),
        ensures
            message_views(events@) == opening_events(self.index(), file_size, self.bytes()),
    {
        let mut events: Vec<MainboundMessage> = Vec::new();
        events.push(MainboundMessage::FileSizeDiscovered { file_index: self.file_index, file_size });
        if self.records.is_empty_stream() {
            assert(message_views(events@) =~= opening_events(
                self.index(),
                file_size,
                self.bytes(),
            ));
        } else {
            events.push(
                MainboundMessage::EntrySizeDiscovered {
                    file_index: self.file_index,
                    entry_size: self.records.entry_size() as u64,
                },
            );
            assert(message_views(events@) =~= opening_events(
                self.index(),
                file_size,
                self.bytes(),
            ));
        }
        events
    }

    /// The events that close the file, once every record is worked off: the
    /// stranded records in one batch, and the completion.
    pub fn complete(self) -> (events: Vec<MainboundMessage>)
        requires
            self.wf(),
        ensures
            message_views(events@) == closing_events(self.index(), self.resolver()) + seq![
                MessageView::Complete { file_index: self.index() },
            ],
    {
        let file_index = self.file_index;
        let mut events = self.finish();
        let ghost closing = message_views(events@);
        events.push(MainboundMessage::Complete { file_index });
        assert(message_views(events@) =~= closing + seq![MessageView::Complete { file_index }]);
        events
    }
}

/// Running the records `from..to` is running `from..mid` and then `mid..to`.
pub proof fn run_records_split(
    file_index: usize,
    bytes: Seq<u8>,
    size: int,
    m: ResolverModel,
    from: int,
    mid: int,
    to: int,
)
    requires
        from <= mid <= to,
    ensures
        ({
            let head = run_records(file_index, bytes, size, m, from, mid);
            let tail = run_records(file_index, bytes, size, head.0, mid, to);
            run_records(file_index, bytes, size, m, from, to) == (tail.0, head.1 + tail.1)
        }),
    decreases mid - from,
{
    let head = run_records(file_index, bytes, size, m, from, mid);
    let tail = run_records(file_index, bytes, size, head.0, mid, to);
    if from == mid {
        assert(head.1 + tail.1 =~= tail.1);
    } else {
        let first = record_events(
            file_index,
            size as u64,
            m,
            slot_of(bytes, size, from),
            from as u64,
        );
        run_records_split(file_index, bytes, size, first.0, from + 1, mid, to);
        let head2 = run_records(file_index, bytes, size, first.0, from + 1, mid);
        assert(first.1 + (head2.1 + tail.1) =~= (first.1 + head2.1) + tail.1);
    }
}

/// Running one record more appends the events of that record.
pub proof fn run_records_step(
    file_index: usize,
    bytes: Seq<u8>,
    size: int,
    m: ResolverModel,
    to: int,
)
    requires
        0 <= to,
    ensures
        ({
            let upto = run_records(file_index, bytes, size, m, 0, to);
            let next = record_events(
                file_index,
                size as u64,
                upto.0,
                slot_of(bytes, size, to),
                to as u64,
            );
            run_records(file_index, bytes, size, m, 0, to + 1) == (next.0, upto.1 + next.1)
        }),
{
    let upto = run_records(file_index, bytes, size, m, 0, to);
    let next = record_events(file_index, size as u64, upto.0, slot_of(bytes, size, to), to as u64);
    run_records_split(file_index, bytes, size, m, 0, to, to + 1);
    let one = run_records(file_index, bytes, size, upto.0, to, to + 1);
    let none = run_records(file_index, bytes, size, next.0, to + 1, to + 1);
    assert(none == (next.0, Seq::<MessageView>::empty()));
    assert(one == (none.0, next.1 + none.1));
    assert(next.1 + none.1 =~= next.1);
}

/// Works off a whole MFT byte stream and returns its events in order.
pub fn process_mft_bytes(file_index: usize, mft_bytes: &[u8], drive_letter: char) -> (events: Vec<
    MainboundMessage,
>)
    ensures
        message_views(events@) == stream_events(file_index, mft_bytes@, drive_letter),
{
    let mut events: Vec<MainboundMessage> = Vec::new();
    if mft_bytes.len() == 0 {
        assert(message_views(events@) =~= Seq::empty());
        return events;
    }
    let ghost bytes = mft_bytes@;
    let ghost size = record_size_of(bytes);
    let ghost total = record_count(bytes.len() as int, size);
    let ghost m0 = fresh_resolver(drive_letter);
    let mut worker = MftWorker::new(file_index, mft_bytes, drive_letter);
    events.push(
        MainboundMessage::EntrySizeDiscovered { file_index, entry_size: worker.entry_size() },
    );
    let ghost head = seq![MessageView::EntrySizeDiscovered { file_index, entry_size: size as u64 }];
    assert(message_views(events@) =~= head + run_records(file_index, bytes, size, m0, 0, 0).1);
    loop
        invariant
            worker.wf(),
            worker.index() == file_index,
            worker.bytes() == bytes,
            worker.record_size() == size,
            worker.count() == total,
            0 <= worker.position() <= total,
            worker.resolver() == run_records(file_index, bytes, size, m0, 0, worker.position()).0,
            message_views(events@) == head + run_records(
                file_index,
                bytes,
                size,
                m0,
                0,
                worker.position(),
            ).1,
        ensures
            worker.wf(),
            worker.index() == file_index,
            worker.position() == total,
            worker.resolver() == run_records(file_index, bytes, size, m0, 0, total).0,
            message_views(events@) == head + run_records(file_index, bytes, size, m0, 0, total).1,
        decreases total - worker.position(),
    {
        let ghost at = worker.position();
        let ghost before = message_views(events@);
        let ghost m = worker.resolver();
        match worker.next_events() {
            Some(mut more) => {
                let ghost step = message_views(more@);
                events.append(&mut more);
                proof {
                    assert(message_views(events@) =~= before + step);
                    run_records_step(file_index, bytes, size, m0, at);
                    let upto = run_records(file_index, bytes, size, m0, 0, at);
                    assert((head + upto.1) + step =~= head + (upto.1 + step));
                }
            },
            None => {
                break ;
            },
        }
    }
    let ghost run = message_views(events@);
    let ghost m = worker.resolver();
    let mut last = worker.finish();
    let ghost closing = message_views(last@);
    events.append(&mut last);
    assert(message_views(events@) =~= run + closing);
    events
}

/// Works off a whole MFT file: `file_size` is the size of the dump on disk,
/// `stem` the stem of its file name, `mft_bytes` what was read of it.
pub fn process_mft_file(file_index: usize, file_size: u64, stem: &str, mft_bytes: &[u8]) -> (events:
    Vec<MainboundMessage>)
    ensures
        message_views(events@) == file_events(
            file_index,
            file_size,
            mft_bytes@,
            drive_letter_of(stem@),
        ),
{
    let drive_letter = infer_drive_letter(stem);
    let ghost bytes = mft_bytes@;
    let ghost size = record_size_of(bytes);
    let ghost total = record_count(bytes.len() as int, size);
    let ghost m0 = fresh_resolver(drive_letter);
    let mut worker = MftWorker::new(file_index, mft_bytes, drive_letter);
    let mut events = worker.start(file_size);
    let ghost head = opening_events(file_index, file_size, bytes);
    assert(message_views(events@) =~= head + run_records(file_index, bytes, size, m0, 0, 0).1);
    loop
        invariant
            worker.wf(),
            worker.index() == file_index,
            worker.bytes() == bytes,
            worker.record_size() == size,
            worker.count() == total,
            0 <= worker.position() <= total,
            worker.resolver() == run_records(file_index, bytes, size, m0, 0, worker.position()).0,
            message_views(events@) == head + run_records(
                file_index,
                bytes,
                size,
                m0,
                0,
                worker.position(),
            ).1,
        ensures
            worker.wf(),
            worker.index() == file_index,
            worker.position() == total,
            worker.resolver() == run_records(file_index, bytes, size, m0, 0, total).0,
            message_views(events@) == head + run_records(file_index, bytes, size, m0, 0, total).1,
        decreases total - worker.position(),
    {
        let ghost at = worker.position();
        let ghost before = message_views(events@);
        match worker.next_events() {
            Some(mut more) => {
                let ghost step = message_views(more@);
                events.append(&mut more);
                proof {
                    assert(message_views(events@) =~= before + step);
                    run_records_step(file_index, bytes, size, m0, at);
                    let upto = run_records(file_index, bytes, size, m0, 0, at);
                    assert((head + upto.1) + step =~= head + (upto.1 + step));
                }
            },
            None => {
                break ;
            },
        }
    }
    let ghost run = message_views(events@);
    let mut last = worker.complete();
    let ghost closing = message_views(last@);
    events.append(&mut last);
    proof {
        assert(message_views(events@) =~= run + closing);
        let records = run_records(file_index, bytes, size, m0, 0, total);
        if bytes.len() == 0 {
            crate::mft::stream::record_count_bounds(0, size);
            assert(total == 0);
            assert(records.1 =~= Seq::<MessageView>::empty());
            assert(records.0 == m0);
            assert(stranded(m0, 0) =~= Seq::empty());
            assert(closing_events(file_index, m0) =~= Seq::<MessageView>::empty());
            assert(message_views(events@) =~= file_events(
                file_index,
                file_size,
                bytes,
                drive_letter,
            ));
        } else {
            assert(message_views(events@) =~= file_events(
                file_index,
                file_size,
                bytes,
                drive_letter,
            ));
        }
    }
    events
}

/// What a worker hands out piece by piece is what the file gives as a
/// whole: the opening events, the events of each record in turn, and the
/// closing events.
pub proof fn pieces_make_the_whole(
    file_index: usize,
    file_size: u64,
    bytes: Seq<u8>,
    drive_letter: char,
)
    requires
        bytes.len() > 0,
    ensures
        ({
            let size = record_size_of(bytes);
            let run = run_records(
                file_index,
                bytes,
                size,
                fresh_resolver(drive_letter),
                0,
                record_count(bytes.len() as int, size),
            );
            file_events(file_index, file_size, bytes, drive_letter) == opening_events(
                file_index,
                file_size,
                bytes,
            ) + run.1 + (closing_events(file_index, run.0) + seq![
                MessageView::Complete { file_index },
            ])
        }),
{
    let size = record_size_of(bytes);
    let run = run_records(
        file_index,
        bytes,
        size,
        fresh_resolver(drive_letter),
        0,
        record_count(bytes.len() as int, size),
    );
    assert(file_events(file_index, file_size, bytes, drive_letter) =~= opening_events(
        file_index,
        file_size,
        bytes,
    ) + run.1 + (closing_events(file_index, run.0) + seq![MessageView::Complete { file_index }]));
}

/// The health bits among `events`, in order.
pub open spec fn health_bits(events: Seq<MessageView>) -> Seq<bool>
    decreases events.len(),
{
    if events.len() == 0 {
        Seq::empty()
    } else {
        match events.last() {
            MessageView::EntryStatus { is_healthy, .. } => health_bits(events.drop_last()).push(
                is_healthy,
            ),
            _ => health_bits(events.drop_last()),
        }
    }
}

/// The sum of the byte counts of the progress events among `events`.
pub open spec fn progress_total(events: Seq<MessageView>) -> int
    decreases events.len(),
{
    if events.len() == 0 {
        0
    } else {
        progress_total(events.drop_last()) + match events.last() {
            MessageView::Progress { processed_size, .. } => processed_size as int,
            _ => 0,
        }
    }
}

/// Whether every path that `events` make known begins with the prefix of
/// the drive.
pub open spec fn paths_prefixed(events: Seq<MessageView>, drive_letter: char) -> bool {
    forall|k: int, j: int|
        0 <= k < events.len() && events[k] is DiscoveredFiles && 0 <= j
            < events[k]->DiscoveredFiles_files.len() ==> crate::paths::starts_with(
            (#[trigger] events[k]->DiscoveredFiles_files[j]).full_path,
            crate::paths::drive_prefix(drive_letter),
        )
}

/// Health bits and progress add up over a concatenation.
pub proof fn totals_of_concat(a: Seq<MessageView>, b: Seq<MessageView>)
    ensures
        health_bits(a + b) == health_bits(a) + health_bits(b),
        progress_total(a + b) == progress_total(a) + progress_total(b),
    decreases b.len(),
{
    if b.len() == 0 {
        assert(a + b =~= a);
        assert(health_bits(a) + health_bits(b) =~= health_bits(a));
    } else {
        totals_of_concat(a, b.drop_last());
        assert((a + b).drop_last() =~= a + b.drop_last());
        assert((a + b).last() == b.last());
        match b.last() {
            MessageView::EntryStatus { is_healthy, .. } => {
                assert((health_bits(a) + health_bits(b.drop_last())).push(is_healthy)
                    =~= health_bits(a) + health_bits(b.drop_last()).push(is_healthy));
            },
            _ => {},
        }
    }
}

/// One record has one health bit, which says whether the record carries the
/// signature `FILE`, has verified fixups and a well-formed attribute table,
/// and one progress event of one record size.
pub proof fn record_events_totals(
    file_index: usize,
    size: u64,
    m: ResolverModel,
    slot: Seq<u8>,
    record_number: u64,
)
    requires
        m.wf(),
    ensures
        ({
            let step = record_events(file_index, size, m, slot, record_number);
            &&& step.0.wf()
            &&& step.0.drive_letter == m.drive_letter
            &&& health_bits(step.1) == seq![crate::mft::record::record_healthy(slot)]
            &&& progress_total(step.1) == size
            &&& paths_prefixed(step.1, m.drive_letter)
        }),
{
    let step = record_events(file_index, size, m, slot, record_number);
    let progress = MessageView::Progress { file_index, processed_size: size };
    crate::mft::record::fault_free_is_healthy(slot);
    match record_fault(slot) {
        Some(fault) => {
            let e0 = MessageView::EntryStatus { file_index, is_healthy: false };
            let e1 = MessageView::Error { file_index, error: fault_text(fault) };
            assert(step.1 =~= seq![e0] + seq![e1] + seq![progress]);
            totals_of_concat(seq![e0], seq![e1]);
            totals_of_concat(seq![e0] + seq![e1], seq![progress]);
            single_event_totals(e0);
            single_event_totals(e1);
            single_event_totals(progress);
            assert(health_bits(step.1) =~= seq![false]);
        },
        None => {
            let e0 = MessageView::EntryStatus { file_index, is_healthy: true };
            single_event_totals(e0);
            single_event_totals(progress);
            match first_usable(record_attributes(slot, record_number)) {
                None => {
                    assert(step.1 =~= seq![e0] + seq![progress]);
                    totals_of_concat(seq![e0], seq![progress]);
                    assert(health_bits(step.1) =~= seq![true]);
                },
                Some(name) => {
                    let record = named_record_of(record_number, name);
                    crate::resolver::accept_properties(m, record);
                    let acc = accept_step(m, record);
                    if acc.1.len() > 0 {
                        let e1 = MessageView::DiscoveredFiles { file_index, files: acc.1 };
                        single_event_totals(e1);
                        assert(step.1 =~= seq![e0] + seq![e1] + seq![progress]);
                        totals_of_concat(seq![e0], seq![e1]);
                        totals_of_concat(seq![e0] + seq![e1], seq![progress]);
                        assert(health_bits(step.1) =~= seq![true]);
                    } else {
                        assert(step.1 =~= seq![e0] + seq![progress]);
                        totals_of_concat(seq![e0], seq![progress]);
                        assert(health_bits(step.1) =~= seq![true]);
                    }
                },
            }
        },
    }
}

proof fn single_event_totals(e: MessageView)
    ensures
        health_bits(seq![e]) == (match e {
            MessageView::EntryStatus { is_healthy, .. } => seq![is_healthy],
            _ => Seq::empty(),
        }),
        progress_total(seq![e]) == (match e {
            MessageView::Progress { processed_size, .. } => processed_size as int,
            _ => 0,
        }),
{
    assert(seq![e].drop_last() =~= Seq::<MessageView>::empty());
    assert(seq![e].last() == e);
    assert(health_bits(Seq::<MessageView>::empty()) == Seq::<bool>::empty());
    assert(progress_total(Seq::<MessageView>::empty()) == 0);
    assert(health_bits(seq![e].drop_last()) == Seq::<bool>::empty());
    assert(progress_total(seq![e].drop_last()) == 0);
    match e {
        MessageView::EntryStatus { is_healthy, .. } => {
            assert(Seq::<bool>::empty().push(is_healthy) =~= seq![is_healthy]);
        },
        _ => {},
    }
}

/// The first `to` records give `to` health bits, bit `i` being the health of
/// record `i`, and a progress of `to` record sizes; every path they make
/// known begins with the prefix of the drive.
pub proof fn run_records_totals(
    file_index: usize,
    bytes: Seq<u8>,
    size: int,
    m: ResolverModel,
    to: int,
)
    requires
        m.wf(),
        0 <= to,
        0 < size <= u32::MAX,
    ensures
        ({
            let run = run_records(file_index, bytes, size, m, 0, to);
            &&& run.0.wf()
            &&& run.0.drive_letter == m.drive_letter
            &&& health_bits(run.1).len() == to
            &&& forall|i: int|
                0 <= i < to ==> #[trigger] health_bits(run.1)[i]
                    == crate::mft::record::record_healthy(slot_of(bytes, size, i))
            &&& progress_total(run.1) == to * size
            &&& paths_prefixed(run.1, m.drive_letter)
        }),
    decreases to,
{
    if to == 0 {
    } else {
        run_records_totals(file_index, bytes, size, m, to - 1);
        run_records_step(file_index, bytes, size, m, to - 1);
        let upto = run_records(file_index, bytes, size, m, 0, to - 1);
        let next = record_events(
            file_index,
            size as u64,
            upto.0,
            slot_of(bytes, size, to - 1),
            (to - 1) as u64,
        );
        record_events_totals(
            file_index,
            size as u64,
            upto.0,
            slot_of(bytes, size, to - 1),
            (to - 1) as u64,
        );
        totals_of_concat(upto.1, next.1);
        let run = run_records(file_index, bytes, size, m, 0, to);
        assert(run.1 == upto.1 + next.1);
        assert(to * size == (to - 1) * size + size) by (nonlinear_arith);
        assert forall|i: int| 0 <= i < to implies #[trigger] health_bits(run.1)[i]
            == crate::mft::record::record_healthy(slot_of(bytes, size, i)) by {
            if i < to - 1 {
                assert(health_bits(run.1)[i] == health_bits(upto.1)[i]);
            }
        }
        assert(paths_prefixed(run.1, m.drive_letter)) by {
            assert forall|k: int, j: int|
                0 <= k < run.1.len() && run.1[k] is DiscoveredFiles && 0 <= j
                    < run.1[k]->DiscoveredFiles_files.len() implies crate::paths::starts_with(
                (#[trigger] run.1[k]->DiscoveredFiles_files[j]).full_path,
                crate::paths::drive_prefix(m.drive_letter),
            ) by {
                if k < upto.1.len() {
                    assert(run.1[k] == upto.1[k]);
                } else {
                    assert(run.1[k] == next.1[k - upto.1.len()]);
                }
            }
        }
    }
}

/// A stream gives one health bit for each whole record, bit `i` saying
/// whether record `i` is healthy, and its progress events add up to the
/// number of whole records times the record size: a partial record at the
/// end adds nothing. Every path it makes known begins with the prefix of
/// the drive.
pub proof fn stream_totals(file_index: usize, bytes: Seq<u8>, drive_letter: char)
    requires
        bytes.len() > 0,
    ensures
        ({
            let size = record_size_of(bytes);
            let count = record_count(bytes.len() as int, size);
            let events = stream_events(file_index, bytes, drive_letter);
            &&& health_bits(events).len() == count
            &&& forall|i: int|
                0 <= i < count ==> #[trigger] health_bits(events)[i]
                    == crate::mft::record::record_healthy(slot_of(bytes, size, i))
            &&& progress_total(events) == count * size
            &&& count * size <= bytes.len() < (count + 1) * size
            &&& paths_prefixed(events, drive_letter)
        }),
{
    let size = record_size_of(bytes);
    let count = record_count(bytes.len() as int, size);
    crate::mft::stream::record_count_bounds(bytes.len() as int, size);
    assert((count + 1) * size == count * size + size) by (nonlinear_arith);
    let m0 = fresh_resolver(drive_letter);
    run_records_totals(file_index, bytes, size, m0, count);
    let run = run_records(file_index, bytes, size, m0, 0, count);
    let head = seq![MessageView::EntrySizeDiscovered { file_index, entry_size: size as u64 }];
    let closing = closing_events(file_index, run.0);
    single_event_totals(head[0]);
    totals_of_concat(head, run.1);
    totals_of_concat(head + run.1, closing);
    let rest = stranded(run.0, run.0.waiting.len());
    crate::resolver::stranded_properties(run.0, run.0.waiting.len());
    if rest.len() > 0 {
        single_event_totals(closing[0]);
    }
    let events = stream_events(file_index, bytes, drive_letter);
    assert(events == head + run.1 + closing);
    assert(health_bits(events) =~= health_bits(run.1));
    assert(paths_prefixed(events, drive_letter)) by {
        assert forall|k: int, j: int|
            0 <= k < events.len() && events[k] is DiscoveredFiles && 0 <= j
                < events[k]->DiscoveredFiles_files.len() implies crate::paths::starts_with(
            (#[trigger] events[k]->DiscoveredFiles_files[j]).full_path,
            crate::paths::drive_prefix(drive_letter),
        ) by {
            if k < 1 {
            } else if k < 1 + run.1.len() {
                assert(events[k] == run.1[k - 1]);
            } else {
                assert(events[k] == closing[k - 1 - run.1.len()]);
            }
        }
    }
}

/// An empty stream has no events: between the size of the file and its
/// completion nothing is reported.
pub proof fn empty_stream_is_silent(file_index: usize, file_size: u64, drive_letter: char)
    ensures
        stream_events(file_index, Seq::empty(), drive_letter) == Seq::<MessageView>::empty(),
        file_events(file_index, file_size, Seq::empty(), drive_letter) == seq![
            MessageView::FileSizeDiscovered { file_index, file_size },
            MessageView::Complete { file_index },
        ],
{
    assert(file_events(file_index, file_size, Seq::empty(), drive_letter) =~= seq![
        MessageView::FileSizeDiscovered { file_index, file_size },
        MessageView::Complete { file_index },
    ]);
}

/// Whether every event is about the file `file_index`.
pub open spec fn all_about(events: Seq<MessageView>, file_index: usize) -> bool {
    forall|k: int| 0 <= k < events.len() ==> (#[trigger] events[k]).file_index() == file_index
}

/// The events of records are all about their file.
pub proof fn run_records_name_the_file(
    file_index: usize,
    bytes: Seq<u8>,
    size: int,
    m: ResolverModel,
    from: int,
    to: int,
)
    ensures
        all_about(run_records(file_index, bytes, size, m, from, to).1, file_index),
    decreases to - from,
{
    if from < to {
        let first = record_events(
            file_index,
            size as u64,
            m,
            slot_of(bytes, size, from),
            from as u64,
        );
        run_records_name_the_file(file_index, bytes, size, first.0, from + 1, to);
        assert(all_about(first.1, file_index));
    }
}

/// The events of a file begin with its size and end with its completion;
/// the record size comes second where the stream is not empty, and so before
/// any progress; and every event names the file.
pub proof fn file_events_order(
    file_index: usize,
    file_size: u64,
    bytes: Seq<u8>,
    drive_letter: char,
)
    ensures
        ({
            let events = file_events(file_index, file_size, bytes, drive_letter);
            &&& events.len() >= 2
            &&& events[0] == (MessageView::FileSizeDiscovered { file_index, file_size })
            &&& events.last() == (MessageView::Complete { file_index })
            &&& bytes.len() > 0 ==> events[1] is EntrySizeDiscovered
            &&& forall|k: int| 0 <= k < events.len() && #[trigger] events[k] is Progress ==> k >= 2
            &&& all_about(events, file_index)
        }),
{
    let events = file_events(file_index, file_size, bytes, drive_letter);
    let stream = stream_events(file_index, bytes, drive_letter);
    assert(events[0] == (MessageView::FileSizeDiscovered { file_index, file_size }));
    if bytes.len() > 0 {
        assert(events[1] == stream[0]);
        let size = record_size_of(bytes);
        run_records_name_the_file(
            file_index,
            bytes,
            size,
            fresh_resolver(drive_letter),
            0,
            record_count(bytes.len() as int, size),
        );
    }
    assert(all_about(stream, file_index));
    assert forall|k: int| 0 <= k < events.len() implies (#[trigger] events[k]).file_index()
        == file_index by {
        if 0 < k < events.len() - 1 {
            assert(events[k] == stream[k - 1]);
        }
    }
}

} // verus!
