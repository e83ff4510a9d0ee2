//! Download bookkeeping: sizes for display, the progress of a fetch and the
//! unpacking of an archive.

use vstd::arithmetic::div_mod::lemma_fundamental_div_mod;
use crate::models::{DownloadEvent, DownloadEventView, DownloadKind};
use crate::text::{chars_of, ends_with, spec_ends_with};
use vstd::prelude::*;

verus! {

/// The character that stands for the digit `d`.
pub open spec fn digit_char(d: nat) -> char {
    if d == 0 {
        '0'
    } else if d == 1 {
        '1'
    } else if d == 2 {
        '2'
    } else if d == 3 {
        '3'
    } else if d == 4 {
        '4'
    } else if d == 5 {
        '5'
    } else if d == 6 {
        '6'
    } else if d == 7 {
        '7'
    } else if d == 8 {
        '8'
    } else {
        '9'
    }
}

/// The decimal numeral of `n`, without leading zeros.
pub open spec fn decimal(n: nat) -> Seq<char>
    decreases n,
{
    if n < 10 {
        seq![digit_char(n)]
    } else {
        decimal(n / 10).push(digit_char(n % 10))
    }
}

/// The character that stands for the digit `d`.
pub fn digit(d: u8) -> (c: char)
    requires
        d < 10,
    ensures
        c == digit_char(d as nat),
{
    if d == 0 {
        '0'
    } else if d == 1 {
        '1'
    } else if d == 2 {
        '2'
    } else if d == 3 {
        '3'
    } else if d == 4 {
        '4'
    } else if d == 5 {
        '5'
    } else if d == 6 {
        '6'
    } else if d == 7 {
        '7'
    } else if d == 8 {
        '8'
    } else {
        '9'
    }
}

/// Appends the decimal numeral of `n` to `out`.
pub fn push_decimal(out: &mut String, n: u64)
    ensures
        final(out)@ == old(out)@ + decimal(n as nat),
    decreases n,
{
    if n >= 10 {
        push_decimal(out, n / 10);
    }
    out.push(digit((n % 10) as u8));
    assert(final(out)@ =~= old(out)@ + decimal(n as nat));
}

/// Bytes in a kilobyte, a megabyte and a gigabyte, as sizes are shown.
pub const KB: u64 = 1024;

pub const MB: u64 = 1048576;

pub const GB: u64 = 1073741824;

/// `n / d` rounded to the nearest integer, a tie going to the even one.
pub open spec fn round_half_even(n: nat, d: nat) -> nat {
    let q = n / d;
    let r = n % d;
    if 2 * r > d || (2 * r == d && q % 2 == 1) {
        q + 1
    } else {
        q
    }
}

/// The spacing of the numbers with 53 significant bits around `b`.
pub open spec fn double_ulp(b: nat) -> nat
    decreases b,
{
    if b < 0x20_0000_0000_0000 {
        1
    } else {
        2 * double_ulp(b / 2)
    }
}

/// `b` rounded to 53 significant bits, a tie going to the even significand:
/// the value at which a size is measured before it is scaled.
pub open spec fn nearest_double(b: nat) -> nat {
    round_half_even(b, double_ulp(b)) * double_ulp(b)
}

/// The numeral of `h` hundredths, with two decimal places.
pub open spec fn two_places(h: nat) -> Seq<char> {
    decimal(h / 100) + seq!['.', digit_char(h / 10 % 10), digit_char(h % 10)]
}

/// `b` bytes counted in `unit`s, in hundredths, rounded half to even.
pub open spec fn scaled_hundredths(b: u64, unit: u64) -> nat {
    round_half_even(nearest_double(b as nat) * 100, unit as nat)
}

/// How a size of `b` bytes is shown: in the largest unit that it reaches,
/// with two decimal places, or in whole bytes below a kilobyte.
pub open spec fn spec_human_size(b: u64) -> Seq<char> {
    if b >= GB {
        two_places(scaled_hundredths(b, GB)) + seq![' ', 'G', 'B']
    } else if b >= MB {
        two_places(scaled_hundredths(b, MB)) + seq![' ', 'M', 'B']
    } else if b >= KB {
        two_places(scaled_hundredths(b, KB)) + seq![' ', 'K', 'B']
    } else {
        decimal(b as nat) + seq![' ', 'B']
    }
}

fn div_round_half_even(n: u128, d: u128) -> (q: u128)
    requires
        0 < d <= 0x1_0000_0000_0000_0000,
        n <= 0x1_0000_0000_0000_0000_0000,
    ensures
        q == round_half_even(n as nat, d as nat),
        q <= n / d + 1,
{
    let q = n / d;
    let r = n % d;
    if 2 * r > d || (2 * r == d && q % 2 == 1) {
        q + 1
    } else {
        q
    }
}

fn ulp_of(b: u64) -> (p: u64)
    ensures
        p == double_ulp(b as nat),
        p == 1 || p * 0x10_0000_0000_0000 <= b,
        1 <= p < 4096,
    decreases b,
{
    if b < 0x20_0000_0000_0000 {
        1
    } else {
        2 * ulp_of(b / 2)
    }
}

fn hundredths_of(b: u64, unit: u64) -> (h: u64)
    requires
        unit >= 1024,
    ensures
        h == scaled_hundredths(b, unit),
{
    let p = ulp_of(b);
    let steps = div_round_half_even(b as u128, p as u128);
    proof {
        lemma_fundamental_div_mod(b as int, p as int);
        assert(steps * p <= b + p) by (nonlinear_arith)
            requires
                steps <= (b as int) / (p as int) + 1,
                (b as int) == (p as int) * ((b as int) / (p as int)) + (b as int) % (p as int),
                0 <= (b as int) % (p as int),
                p >= 1,
        ;
    }
    let m: u128 = steps * (p as u128);
    let h = div_round_half_even(m * 100, unit as u128);
    proof {
        assert((m * 100) / (unit as int) <= (m * 100) / 1024) by (nonlinear_arith)
            requires
                unit >= 1024,
                m >= 0,
        ;
    }
    h as u64
}

fn push_two_places(out: &mut String, h: u64)
    ensures
        final(out)@ == old(out)@ + two_places(h as nat),
{
    push_decimal(out, h / 100);
    out.push('.');
    out.push(digit((h / 10 % 10) as u8));
    out.push(digit((h % 10) as u8));
    assert(final(out)@ =~= old(out)@ + two_places(h as nat));
}

/// A size of `b` bytes as it is shown to the user.
pub fn human_size(b: u64) -> (s: String)
    ensures
        s@ == spec_human_size(b),
{
    let mut s = String::new();
    if b >= GB {
        push_two_places(&mut s, hundredths_of(b, GB));
        s.push(' ');
        s.push('G');
        s.push('B');
    } else if b >= MB {
        push_two_places(&mut s, hundredths_of(b, MB));
        s.push(' ');
        s.push('M');
        s.push('B');
    } else if b >= KB {
        push_two_places(&mut s, hundredths_of(b, KB));
        s.push(' ');
        s.push('K');
        s.push('B');
    } else {
        push_decimal(&mut s, b);
        s.push(' ');
        s.push('B');
    }
    assert(s@ =~= spec_human_size(b));
    s
}

/// The size of the chunks in which the body of a download is read.
pub const DOWNLOAD_CHUNK_BYTES: usize = 65536;

/// The stage of a download task.
#[derive(Clone, Copy, PartialEq, Eq, Structural, Debug)]
pub enum Stage {
    Download,
    Unpack,
}

/// The name of a stage, as progress events carry it.
pub open spec fn stage_name(stage: Stage) -> Seq<char> {
    match stage {
        Stage::Download => "download"@,
        Stage::Unpack => "unpack"@,
    }
}

/// One fetch of a runtime archive or of a model file. Its owner feeds it
/// what happens on the wire and on disk; it answers with the events to send.
#[derive(Debug)]
pub struct DownloadTask {
    kind: DownloadKind,
    url: String,
    destination: String,
    bytes_downloaded: u64,
    total_bytes: Option<u64>,
    stage: Stage,
}

/// A download task as mathematics.
pub struct DownloadTaskView {
    pub kind: DownloadKind,
    pub url: Seq<char>,
    pub destination: Seq<char>,
    pub bytes_downloaded: u64,
    pub total_bytes: Option<u64>,
    pub stage: Stage,
}

impl View for DownloadTask {
    type V = DownloadTaskView;

    closed spec fn view(&self) -> DownloadTaskView {
        DownloadTaskView {
            kind: self.kind,
            url: self.url@,
            destination: self.destination@,
            bytes_downloaded: self.bytes_downloaded,
            total_bytes: self.total_bytes,
            stage: self.stage,
        }
    }
}

/// The progress event of the download stage at `current` bytes.
pub open spec fn download_progress(
    kind: DownloadKind,
    current: u64,
    total: Option<u64>,
) -> DownloadEventView {
    DownloadEventView::Progress { kind, current, total, stage: stage_name(Stage::Download) }
}

/// The progress event of the unpack stage after `current` of `total` entries.
pub open spec fn unpack_progress(current: u64, total: u64) -> DownloadEventView {
    DownloadEventView::Progress {
        kind: DownloadKind::Runtime,
        current,
        total: Some(total),
        stage: stage_name(Stage::Unpack),
    }
}

/// Whether the bytes fetched are within the length that was announced,
/// where one was.
pub open spec fn within_total(task: DownloadTaskView) -> bool {
    task.total_bytes matches Some(t) ==> task.bytes_downloaded <= t
}

impl DownloadTask {
    /// A task at its start: nothing fetched, in the download stage.
    pub fn new(kind: DownloadKind, url: String, destination: String, total_bytes: Option<u64>) -> (task:
        Self)
        ensures
            task@ == (DownloadTaskView {
                kind,
                url: url@,
                destination: destination@,
                bytes_downloaded: 0,
                total_bytes,
                stage: Stage::Download,
            }),
    {
        DownloadTask { kind, url, destination, bytes_downloaded: 0, total_bytes, stage: Stage::Download }
    }

    /// What the task fetches.
    pub fn kind(&self) -> (k: DownloadKind)
        ensures
            k == self@.kind,
    {
        self.kind
    }

    /// Where the task fetches from.
    pub fn url(&self) -> (u: &String)
        ensures
            u@ == self@.url,
    {
        &self.url
    }

    /// Where the task puts what it fetches.
    pub fn destination(&self) -> (d: &String)
        ensures
            d@ == self@.destination,
    {
        &self.destination
    }

    /// The bytes fetched so far.
    pub fn bytes_downloaded(&self) -> (n: u64)
        ensures
            n == self@.bytes_downloaded,
    {
        self.bytes_downloaded
    }

    /// The length that the server announced, where it announced one.
    pub fn total_bytes(&self) -> (t: Option<u64>)
        ensures
            t == self@.total_bytes,
    {
        self.total_bytes
    }

    /// The stage that the task is in.
    pub fn stage(&self) -> (s: Stage)
        ensures
            s == self@.stage,
    {
        self.stage
    }

    /// Whether `n` more bytes can be counted.
    pub fn can_record(&self, n: usize) -> (ok: bool)
        ensures
            ok == (self@.bytes_downloaded + n <= u64::MAX),
    {
        n as u64 <= u64::MAX - self.bytes_downloaded
    }

    /// Counts a chunk of `n` bytes that was written to disk, and gives the
    /// progress event to send. The count never goes down, and it stays within
    /// the announced length as long as the chunks do.
    pub fn record_chunk(&mut self, n: usize) -> (ev: DownloadEvent)
        requires
            old(self)@.bytes_downloaded + n <= u64::MAX,
        ensures
            final(self)@ == (DownloadTaskView {
                bytes_downloaded: (old(self)@.bytes_downloaded + n) as u64,
                ..old(self)@
            }),
            final(self)@.bytes_downloaded >= old(self)@.bytes_downloaded,
            ev@ == download_progress(
                old(self)@.kind,
                final(self)@.bytes_downloaded,
                old(self)@.total_bytes,
            ),
            old(self)@.total_bytes matches Some(t) && old(self)@.bytes_downloaded + n <= t
                ==> within_total(final(self)@),
    {
        self.bytes_downloaded = self.bytes_downloaded + n as u64;
        DownloadEvent::Progress {
            kind: self.kind,
            current: self.bytes_downloaded,
            total: self.total_bytes,
            stage: "download",
        }
    }

    /// The terminal event for a failure on the wire or on disk. The task is
    /// over with it.
    pub fn fail(self, err: String) -> (ev: DownloadEvent)
        ensures
            ev@ == (DownloadEventView::Error { kind: self@.kind, err: err@ }),
    {
        DownloadEvent::Error { kind: self.kind, err }
    }

    /// The body has come to its end. A model file is done, and the event
    /// says where it lies; a runtime archive goes on to be unpacked.
    pub fn finish_download(self) -> (next: AfterBody)
        ensures
            match self@.kind {
                DownloadKind::Model => next matches AfterBody::Done(e) && e@ == (
                DownloadEventView::Done {
                    kind: DownloadKind::Model,
                    dest: Some(self@.destination),
                }),
                DownloadKind::Runtime => next matches AfterBody::Unpack(task) && task@ == (
                DownloadTaskView { stage: Stage::Unpack, ..self@ }),
            },
    {
        match self.kind {
            DownloadKind::Model => AfterBody::Done(
                DownloadEvent::Done { kind: DownloadKind::Model, dest: Some(self.destination) },
            ),
            DownloadKind::Runtime => AfterBody::Unpack(
                DownloadTask {
                    kind: self.kind,
                    url: self.url,
                    destination: self.destination,
                    bytes_downloaded: self.bytes_downloaded,
                    total_bytes: self.total_bytes,
                    stage: Stage::Unpack,
                },
            ),
        }
    }

    /// The terminal event of a runtime whose archive is unpacked. The task
    /// is over with it.
    pub fn finish_unpack(self) -> (ev: DownloadEvent)
        ensures
            ev@ == (DownloadEventView::Done { kind: DownloadKind::Runtime, dest: None }),
    {
        DownloadEvent::Done { kind: DownloadKind::Runtime, dest: None }
    }
}

/// What follows the end of the body.
#[derive(Debug)]
pub enum AfterBody {
    /// The download is done, with this terminal event.
    Done(DownloadEvent),
    /// The archive is to be unpacked; the task is in its unpack stage.
    Unpack(DownloadTask),
}

/// The bytes in the chunks of `chunks`, all together.
pub open spec fn chunk_sum(chunks: Seq<usize>) -> nat
    decreases chunks.len(),
{
    if chunks.len() == 0 {
        0
    } else {
        chunk_sum(chunks.drop_last()) + chunks.last() as nat
    }
}

/// The more chunks, the more bytes: the running count never goes down.
pub proof fn lemma_chunk_sum_monotone(chunks: Seq<usize>, i: int, j: int)
    requires
        0 <= i <= j <= chunks.len(),
    ensures
        chunk_sum(chunks.take(i)) <= chunk_sum(chunks.take(j)),
    decreases j - i,
{
    if i < j {
        assert(chunks.take(j).drop_last() =~= chunks.take(j - 1));
        lemma_chunk_sum_monotone(chunks, i, j - 1);
    }
}

/// The progress events of a download whose body arrives in the chunks
/// `chunks`: one after every chunk, each with the bytes counted up to it.
pub fn progress_events(kind: DownloadKind, total: Option<u64>, chunks: &Vec<usize>) -> (events: Vec<
    DownloadEvent,
>)
    requires
        chunk_sum(chunks@) <= u64::MAX,
    ensures
        events.len() == chunks.len(),
        forall|i: int|
            0 <= i < chunks.len() ==> (#[trigger] events@[i])@ == download_progress(
                kind,
                chunk_sum(chunks@.take(i + 1)) as u64,
                total,
            ),
{
    let mut task = DownloadTask::new(kind, String::new(), String::new(), total);
    let mut events: Vec<DownloadEvent> = Vec::new();
    let mut k: usize = 0;
    assert(chunks@.take(0) =~= Seq::<usize>::empty());
    while k < chunks.len()
        invariant
            k <= chunks.len(),
            events.len() == k,
            task@.kind == kind,
            task@.total_bytes == total,
            task@.bytes_downloaded == chunk_sum(chunks@.take(k as int)),
            chunk_sum(chunks@) <= u64::MAX,
            forall|i: int|
                0 <= i < k ==> (#[trigger] events@[i])@ == download_progress(
                    kind,
                    chunk_sum(chunks@.take(i + 1)) as u64,
                    total,
                ),
        decreases chunks.len() - k,
    {
        proof {
            assert(chunks@.take(k + 1).drop_last() =~= chunks@.take(k as int));
            assert(chunks@.take(chunks.len() as int) =~= chunks@);
            lemma_chunk_sum_monotone(chunks@, k + 1, chunks.len() as int);
        }
        let ev = task.record_chunk(chunks[k]);
        events.push(ev);
        k += 1;
    }
    events
}

/// Over a whole download the counts of the progress events never go down,
/// and the last one is the length of the file: the bytes of all chunks.
pub proof fn lemma_download_progress(
    kind: DownloadKind,
    total: Option<u64>,
    chunks: Seq<usize>,
    events: Seq<DownloadEventView>,
)
    requires
        chunk_sum(chunks) <= u64::MAX,
        events.len() == chunks.len(),
        forall|i: int|
            0 <= i < chunks.len() ==> #[trigger] events[i] == download_progress(
                kind,
                chunk_sum(chunks.take(i + 1)) as u64,
                total,
            ),
    ensures
        forall|i: int, j: int|
            0 <= i <= j < events.len() ==> (#[trigger] events[i])->Progress_current <= (
            #[trigger] events[j])->Progress_current,
        events.len() > 0 ==> events.last()->Progress_current == chunk_sum(chunks),
{
    assert(chunks.take(chunks.len() as int) =~= chunks);
    assert forall|i: int, j: int| 0 <= i <= j < events.len() implies (
    #[trigger] events[i])->Progress_current <= (#[trigger] events[j])->Progress_current by {
        lemma_chunk_sum_monotone(chunks, i + 1, j + 1);
        lemma_chunk_sum_monotone(chunks, j + 1, chunks.len() as int);
    }
}

/// What to do with an entry of an archive.
#[derive(Clone, Copy, PartialEq, Eq, Structural, Debug)]
pub enum EntryAction {
    /// Create the directory, with the directories above it.
    CreateDir,
    /// Create the directories above the file and write the file; mark it
    /// executable where the system knows of that.
    WriteFile { make_executable: bool },
}

/// Whether an entry's name is that of a directory: it ends in the path
/// separator.
pub open spec fn is_directory_name(name: Seq<char>) -> bool {
    spec_ends_with(name, seq!['/'])
}

/// What to do with an entry of that name.
pub open spec fn spec_entry_action(name: Seq<char>, posix: bool) -> EntryAction {
    if is_directory_name(name) {
        EntryAction::CreateDir
    } else {
        EntryAction::WriteFile { make_executable: posix }
    }
}

/// What to do with the entry `name` of an archive, on a system that is or is
/// not of the POSIX kind.
pub fn entry_action(name: &str, posix: bool) -> (action: EntryAction)
    ensures
        action == spec_entry_action(name@, posix),
{
    let mut slash: Vec<char> = Vec::new();
    slash.push('/');
    assert(slash@ =~= seq!['/']);
    if ends_with(&chars_of(name), &slash) {
        EntryAction::CreateDir
    } else {
        EntryAction::WriteFile { make_executable: posix }
    }
}

/// The unpack stage of a runtime: it counts the entries of the archive as
/// they are put in place.
#[derive(Debug)]
pub struct Unpacker {
    total: u64,
    done: u64,
}

/// An unpack stage as mathematics: the entries of the archive and those
/// that are in place.
pub struct UnpackerView {
    pub total: u64,
    pub done: u64,
}

impl View for Unpacker {
    type V = UnpackerView;

    closed spec fn view(&self) -> UnpackerView {
        UnpackerView { total: self.total, done: self.done }
    }
}

impl Unpacker {
    /// The unpack stage of an archive of `total` entries, none in place.
    pub fn new(total: usize) -> (u: Self)
        ensures
            u@ == (UnpackerView { total: total as u64, done: 0 }),
    {
        Unpacker { total: total as u64, done: 0 }
    }

    /// How many entries are still to be put in place.
    pub fn remaining(&self) -> (n: u64)
        ensures
            n == if self@.done <= self@.total {
                self@.total - self@.done
            } else {
                0
            },
    {
        if self.done <= self.total {
            self.total - self.done
        } else {
            0
        }
    }

    /// Counts one entry that is in place and gives the progress event to
    /// send: the entries so far, of all.
    pub fn record_entry(&mut self) -> (ev: DownloadEvent)
        requires
            old(self)@.done < old(self)@.total,
        ensures
            final(self)@ == (UnpackerView { done: (old(self)@.done + 1) as u64, ..old(self)@ }),
            ev@ == unpack_progress(final(self)@.done, old(self)@.total),
    {
        self.done = self.done + 1;
        DownloadEvent::Progress {
            kind: DownloadKind::Runtime,
            current: self.done,
            total: Some(self.total),
            stage: "unpack",
        }
    }
}

/// The progress events of the unpack stage of an archive of `entry_count`
/// entries: one for every entry, counting from 1 up to their number.
pub fn unpack_events(entry_count: usize) -> (events: Vec<DownloadEvent>)
    ensures
        events.len() == entry_count,
        forall|i: int|
            0 <= i < entry_count ==> (#[trigger] events@[i])@ == unpack_progress(
                (i + 1) as u64,
                entry_count as u64,
            ),
{
    let mut unpacker = Unpacker::new(entry_count);
    let mut events: Vec<DownloadEvent> = Vec::new();
    let mut k: usize = 0;
    while k < entry_count
        invariant
            k <= entry_count,
            events.len() == k,
            unpacker@ == (UnpackerView { total: entry_count as u64, done: k as u64 }),
            forall|i: int|
                0 <= i < k ==> (#[trigger] events@[i])@ == unpack_progress(
                    (i + 1) as u64,
                    entry_count as u64,
                ),
        decreases entry_count - k,
    {
        let ev = unpacker.record_entry();
        events.push(ev);
        k += 1;
    }
    events
}

/// The unpack stage of an archive of `n` entries sends exactly `n` progress
/// events, and their counts rise by one from 1 to `n`.
pub proof fn lemma_unpack_progress(n: usize, events: Seq<DownloadEventView>)
    requires
        events.len() == n,
        forall|i: int| 0 <= i < n ==> #[trigger] events[i] == unpack_progress((i + 1) as u64, n as u64),
    ensures
        events.len() == n,
        forall|i: int| 0 <= i < n ==> (#[trigger] events[i])->Progress_current == i + 1,
        forall|i: int, j: int|
            0 <= i < j < n ==> (#[trigger] events[i])->Progress_current < (
            #[trigger] events[j])->Progress_current,
        n > 0 ==> events[0]->Progress_current == 1 && events.last()->Progress_current == n,
        forall|i: int| 0 <= i < n ==> (#[trigger] events[i])->Progress_total == Some(n as u64),
{
}

} // verus!
