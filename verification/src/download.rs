//! A streamed transfer: what the response's status and announced length mean,
//! the bytes received so far, and the progress reported after every chunk.
//! The bytes are gathered in a `bytes::BytesMut`.

use vstd::prelude::*;
use crate::error::Error;
use crate::number::{parse_signed, parsed};
use crate::text::chars_of;

verus! {

/// `bytes::BytesMut`, the growable byte buffer that a download is gathered
/// in. Nothing is seen of its inside but what `held` names.
#[verifier::external_type_specification]
#[verifier::external_body]
pub struct ExBytesMut(bytes::BytesMut);

/// The bytes that a buffer holds, in order.
pub uninterp spec fn held(buffer: bytes::BytesMut) -> Seq<u8>;

/// `BytesMut::new` makes a buffer that holds nothing.
pub assume_specification[ bytes::BytesMut::new ]() -> (buffer: bytes::BytesMut)
    ensures
        held(buffer).len() == 0,
;

/// `BytesMut::len` is the number of bytes held.
pub assume_specification[ bytes::BytesMut::len ](buffer: &bytes::BytesMut) -> (n: usize)
    ensures
        n == held(*buffer).len(),
;

/// `BytesMut::extend_from_slice` appends the slice to what is held.
pub assume_specification[ bytes::BytesMut::extend_from_slice ](
    buffer: &mut bytes::BytesMut,
    extend: &[u8],
)
    ensures
        held(*final(buffer)) == held(*old(buffer)) + extend@,
;

/// Converts with `Vec::<u8>::from(BytesMut)`, which hands out the bytes held.
#[verifier::external_body]
fn into_vec(buffer: bytes::BytesMut) -> (out: Vec<u8>)
    ensures
        out@ == held(buffer),
{
    Vec::from(buffer)
}

/// One progress report: the total size and the bytes received so far.
/// A total of -1 means that the size is not known. Both at -1 ask the
/// receiver to clear whatever progress it shows.
#[derive(Debug, Clone, Copy, PartialEq, Eq, Structural)]
pub struct ProgressEvent {
    pub total: i64,
    pub current: i64,
}

/// The report that clears the progress shown.
pub open spec fn reset_event() -> ProgressEvent {
    ProgressEvent { total: -1i64, current: -1i64 }
}

/// The report for `received` bytes of a transfer of size `total`.
pub open spec fn report(total: i64, received: nat) -> ProgressEvent {
    ProgressEvent {
        total,
        current: if received <= i64::MAX {
            received as i64
        } else {
            i64::MAX
        },
    }
}

impl ProgressEvent {
    /// The report that clears the progress shown.
    pub fn reset() -> (r: ProgressEvent)
        ensures
            r == reset_event(),
    {
        ProgressEvent { total: -1, current: -1 }
    }

    /// Whether this report asks to clear the progress shown.
    pub fn is_reset(&self) -> (r: bool)
        ensures
            r == (*self == reset_event()),
    {
        self.total == -1 && self.current == -1
    }
}

/// A status from 200 to 299 is a success.
pub open spec fn is_success(status: u16) -> bool {
    200 <= status < 300
}

/// The total size that a response announces: -1 without a length header,
/// else the header's number; `None` where the header is not a number.
pub open spec fn announced(content_length: Option<Seq<char>>) -> Option<int> {
    match content_length {
        None => Some(-1int),
        Some(text) => parsed(text, i64::MIN as int, i64::MAX as int),
    }
}

/// A transfer under way.
pub struct Download {
    total: i64,
    data: bytes::BytesMut,
}

impl Download {
    /// The total size announced, -1 if unknown.
    pub closed spec fn total(&self) -> i64 {
        self.total
    }

    /// The bytes received so far.
    pub closed spec fn received(&self) -> Seq<u8> {
        held(self.data)
    }

    /// Starts a transfer from the response's status and its length header.
    /// A status that is no success gives `HttpStatus`; a length header that
    /// is not a number gives `InvalidLength`.
    pub fn begin(status: u16, content_length: Option<&str>) -> (r: Result<Download, Error>)
        ensures
            match r {
                Ok(d) => is_success(status) && announced(length_view(content_length)) == Some(
                    d.total() as int,
                ) && d.received().len() == 0,
                Err(Error::HttpStatus(code)) => !is_success(status) && code == status,
                Err(Error::InvalidLength) => is_success(status) && announced(
                    length_view(content_length),
                ) is None,
                Err(_) => false,
            },
    {
        if !(200 <= status && status < 300) {
            return Err(Error::HttpStatus(status));
        }
        let total: i64 = match content_length {
            None => -1,
            Some(text) => {
                let chars = chars_of(text);
                match parse_signed(chars.as_slice()) {
                    Some(n) => n,
                    None => {
                        return Err(Error::InvalidLength);
                    },
                }
            },
        };
        Ok(Download { total, data: bytes::BytesMut::new() })
    }

    /// The report for the present state of the transfer.
    pub fn progress(&self) -> (r: ProgressEvent)
        ensures
            r == report(self.total(), self.received().len()),
    {
        let n: u64 = self.data.len() as u64;
        let current: i64 = if n <= 0x7fff_ffff_ffff_ffff {
            n as i64
        } else {
            0x7fff_ffff_ffff_ffff
        };
        ProgressEvent { total: self.total, current }
    }

    /// Takes in one chunk and gives the report to make after it.
    pub fn receive(&mut self, chunk: &[u8]) -> (r: ProgressEvent)
        ensures
            final(self).total() == old(self).total(),
            final(self).received() == old(self).received() + chunk@,
            r == report(final(self).total(), final(self).received().len()),
    {
        self.data.extend_from_slice(chunk);
        self.progress()
    }

    /// Ends the transfer: the bytes received, and the report that clears the
    /// progress shown.
    pub fn finish(self) -> (r: (Vec<u8>, ProgressEvent))
        ensures
            r.0@ == self.received(),
            r.1 == reset_event(),
    {
        (into_vec(self.data), ProgressEvent::reset())
    }
}

/// The text of a length header, if there is one.
pub open spec fn length_view(content_length: Option<&str>) -> Option<Seq<char>> {
    match content_length {
        Some(text) => Some(text@),
        None => None,
    }
}

/// The bytes of the first `count` chunks, end to end.
pub open spec fn gathered(chunks: Seq<Seq<u8>>, count: int) -> Seq<u8>
    decreases count,
{
    if count <= 0 {
        Seq::empty()
    } else {
        gathered(chunks, count - 1) + chunks[count - 1]
    }
}

/// The number of bytes in the first `count` chunks.
pub open spec fn received_after(chunks: Seq<Seq<u8>>, count: int) -> nat {
    gathered(chunks, count).len()
}

/// The reports made during a transfer of size `total` that arrives in
/// `chunks`: one at the start and one after every chunk.
pub open spec fn reports(total: i64, chunks: Seq<Seq<u8>>) -> Seq<ProgressEvent> {
    Seq::new(chunks.len() + 1, |k: int| report(total, received_after(chunks, k)))
}

/// The bytes received never get fewer.
pub proof fn lemma_received_grows(chunks: Seq<Seq<u8>>, i: int, j: int)
    requires
        0 <= i <= j,
    ensures
        received_after(chunks, i) <= received_after(chunks, j),
    decreases j - i,
{
    if i < j {
        lemma_received_grows(chunks, i, j - 1);
    }
}

/// The chunks, each by its bytes.
pub open spec fn chunk_views(chunks: Seq<Vec<u8>>) -> Seq<Seq<u8>> {
    chunks.map_values(|c: Vec<u8>| c@)
}

/// Plays a whole transfer whose chunks are at hand: the bytes gathered, and
/// every report in the order in which it is made, from the one at the start
/// to the clearing one at the end. A response that `begin` refuses gives
/// that refusal.
pub fn transfer(status: u16, content_length: Option<&str>, chunks: &Vec<Vec<u8>>) -> (r: Result<
    (Vec<u8>, Vec<ProgressEvent>),
    Error,
>)
    ensures
        match r {
            Ok((data, events)) => {
                &&& is_success(status)
                &&& announced(length_view(content_length)) is Some
                &&& data@ == gathered(chunk_views(chunks@), chunks@.len() as int)
                &&& events@ == reports(
                    announced(length_view(content_length))->0 as i64,
                    chunk_views(chunks@),
                ).push(reset_event())
            },
            Err(Error::HttpStatus(code)) => !is_success(status) && code == status,
            Err(Error::InvalidLength) => is_success(status) && announced(
                length_view(content_length),
            ) is None,
            Err(_) => false,
        },
{
    let mut download = match Download::begin(status, content_length) {
        Ok(d) => d,
        Err(e) => {
            return Err(e);
        },
    };
    let ghost all = chunk_views(chunks@);
    let ghost total = download.total();
    let mut events: Vec<ProgressEvent> = Vec::new();
    events.push(download.progress());
    assert(download.received() =~= gathered(all, 0));
    assert(events@ =~= reports(total, all).take(1));
    let mut i: usize = 0;
    while i < chunks.len()
        invariant
            i <= chunks.len(),
            all == chunk_views(chunks@),
            download.total() == total,
            download.received() == gathered(all, i as int),
            events@ == reports(total, all).take(i + 1),
        decreases chunks.len() - i,
    {
        assert(all[i as int] == chunks@[i as int]@);
        let event = download.receive(chunks[i].as_slice());
        events.push(event);
        i += 1;
        assert(events@ =~= reports(total, all).take(i + 1));
    }
    assert(reports(total, all).take(i + 1) =~= reports(total, all));
    let (data, reset) = download.finish();
    events.push(reset);
    Ok((data, events))
}

/// During a transfer the reported `current` never goes down, every report
/// carries the announced total, and if the chunks add up to a known total
/// `N`, the last report says `N`. No report of a transfer is the clearing
/// one: that one comes only when the transfer has ended.
pub proof fn lemma_progress_is_monotonic(total: i64, chunks: Seq<Seq<u8>>)
    ensures
        forall|i: int, j: int|
            0 <= i <= j <= chunks.len() ==> (#[trigger] reports(total, chunks)[i]).current <= (
            #[trigger] reports(total, chunks)[j]).current,
        forall|i: int|
            0 <= i <= chunks.len() ==> (#[trigger] reports(total, chunks)[i]).total == total,
        reports(total, chunks)[0].current == 0,
        total >= 0 && received_after(chunks, chunks.len() as int) == total ==> reports(
            total,
            chunks,
        ).last().current == total,
        forall|i: int|
            0 <= i <= chunks.len() ==> #[trigger] reports(total, chunks)[i] != reset_event(),
{
    assert forall|i: int, j: int| 0 <= i <= j <= chunks.len() implies (#[trigger] reports(
        total,
        chunks,
    )[i]).current <= (#[trigger] reports(total, chunks)[j]).current by {
        lemma_received_grows(chunks, i, j);
    }
}

/// How wide the progress bar is, in characters.
pub const BAR_WIDTH: i64 = 30;

/// What a caller shows for a report.
#[derive(Debug, Clone, Copy, PartialEq, Eq, Structural)]
pub enum Shown {
    /// Nothing: the progress shown is cleared.
    Cleared,
    /// The number of bytes received, the size being unknown.
    Received(i64),
    /// The part received, in percent, and as the number of filled places of
    /// the bar.
    Part { percent: i64, filled: i64 },
}

/// The part `current` of `total` on a scale from 0 to `scale`, rounded down
/// and kept within the scale.
pub open spec fn share(current: i64, total: i64, scale: int) -> int {
    let part = scale * current / (total as int);
    if current <= 0 {
        0
    } else if part > scale {
        scale
    } else {
        part
    }
}

/// What is shown for a report: nothing for the clearing report, the bytes
/// received where no positive total is known, else the part received.
pub open spec fn shown_for(event: ProgressEvent) -> Shown {
    if event == reset_event() {
        Shown::Cleared
    } else if event.total <= 0 {
        Shown::Received(event.current)
    } else {
        Shown::Part {
            percent: share(event.current, event.total, 100) as i64,
            filled: share(event.current, event.total, BAR_WIDTH as int) as i64,
        }
    }
}

fn part_of(current: i64, total: i64, scale: i64) -> (r: i64)
    requires
        total > 0,
        0 < scale <= 100,
    ensures
        r == share(current, total, scale as int),
        0 <= r <= scale,
{
    if current <= 0 {
        return 0;
    }
    assert(0 <= scale * current <= 100 * 0x7fff_ffff_ffff_ffff) by (nonlinear_arith)
        requires
            0 < scale <= 100,
            0 < current <= 0x7fff_ffff_ffff_ffff,
    ;
    let product: i128 = (scale as i128) * (current as i128);
    let part: i128 = product / (total as i128);
    assert(part >= 0) by (nonlinear_arith)
        requires
            product >= 0,
            total > 0,
            part == product / (total as i128),
    ;
    if part > scale as i128 {
        scale
    } else {
        part as i64
    }
}

/// The number of filled places, kept within the bar.
pub open spec fn within_bar(filled: i64) -> int {
    if filled < 0 {
        0
    } else if filled > BAR_WIDTH {
        BAR_WIDTH as int
    } else {
        filled as int
    }
}

/// The bar for a part: the percentage, then the filled places as `#` and the
/// rest of the bar's width as `-`, in square brackets.
pub open spec fn bar_text(percent: i64, filled: i64) -> Seq<char> {
    crate::number::signed_decimal(percent as int) + "% ["@ + Seq::new(
        within_bar(filled) as nat,
        |i: int| '#',
    ) + Seq::new((BAR_WIDTH - within_bar(filled)) as nat, |i: int| '-') + "]"@
}

/// The text that stands for what is shown: nothing when cleared, the number
/// of bytes where the size is unknown, else the bar.
pub open spec fn shown_text(shown: Shown) -> Seq<char> {
    match shown {
        Shown::Cleared => Seq::empty(),
        Shown::Received(n) => crate::number::signed_decimal(n as int),
        Shown::Part { percent, filled } => bar_text(percent, filled),
    }
}

impl ProgressEvent {
    /// What a caller shows for this report.
    pub fn shown(&self) -> (r: Shown)
        ensures
            r == shown_for(*self),
            r matches Shown::Part { percent, filled } ==> 0 <= percent <= 100 && 0 <= filled
                <= BAR_WIDTH,
    {
        if self.is_reset() {
            Shown::Cleared
        } else if self.total <= 0 {
            Shown::Received(self.current)
        } else {
            Shown::Part {
                percent: part_of(self.current, self.total, 100),
                filled: part_of(self.current, self.total, BAR_WIDTH),
            }
        }
    }
}

fn bar(percent: i64, filled: i64) -> (out: String)
    ensures
        out@ == bar_text(percent, filled),
{
    let places: i64 = if filled < 0 {
        0
    } else if filled > BAR_WIDTH {
        BAR_WIDTH
    } else {
        filled
    };
    let mut chars = crate::number::render_signed(percent);
    chars.push('%');
    chars.push(' ');
    chars.push('[');
    let ghost head = chars@;
    proof {
        reveal_strlit("% [");
        assert(head =~= crate::number::signed_decimal(percent as int) + "% ["@);
    }
    let mut i: i64 = 0;
    while i < places
        invariant
            0 <= i <= places <= BAR_WIDTH,
            chars@ == head + Seq::new(i as nat, |k: int| '#'),
        decreases places - i,
    {
        chars.push('#');
        i += 1;
        assert(chars@ =~= head + Seq::new(i as nat, |k: int| '#'));
    }
    let ghost filled_part = chars@;
    let mut j: i64 = 0;
    while j < BAR_WIDTH - places
        invariant
            0 <= j <= BAR_WIDTH - places,
            0 <= places <= BAR_WIDTH,
            chars@ == filled_part + Seq::new(j as nat, |k: int| '-'),
        decreases BAR_WIDTH - places - j,
    {
        chars.push('-');
        j += 1;
        assert(chars@ =~= filled_part + Seq::new(j as nat, |k: int| '-'));
    }
    chars.push(']');
    proof {
        reveal_strlit("]");
        assert(chars@ =~= bar_text(percent, filled));
    }
    crate::text::string_of(chars.as_slice())
}

impl Shown {
    /// The text that stands for what is shown.
    pub fn text(&self) -> (out: String)
        ensures
            out@ == shown_text(*self),
    {
        match self {
            Shown::Cleared => String::new(),
            Shown::Received(n) => crate::text::string_of(
                crate::number::render_signed(*n).as_slice(),
            ),
            Shown::Part { percent, filled } => bar(*percent, *filled),
        }
    }
}

} // verus!
