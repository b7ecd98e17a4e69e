//! From the bytes of a file to its lines: the encoding of the bytes is
//! guessed where it is not given, the bytes are turned into UTF-8, and each
//! line that is valid UTF-8 becomes a line of text.
//!
//! The guess is `chardetng`'s and the transcoding `encoding_rs_io`'s. What
//! they return is not stated here, only named; everything around the calls is
//! proved.

use vstd::prelude::*;
use vstd::utf8::{decode_utf8, valid_utf8};

verus! {

/// The detector of `chardetng`, which guesses an encoding from the bytes it
/// is fed. Its state is hidden.
#[verifier::external_type_specification]
#[verifier::external_body]
pub struct ExEncodingDetector(chardetng::EncodingDetector);

/// The chunks that a detector has been fed so far, in the order in which
/// they were fed.
pub uninterp spec fn fed_chunks(detector: chardetng::EncodingDetector) -> Seq<Seq<u8>>;

/// The name of the encoding that `chardetng` guesses for a stream of which
/// `chunks` have been seen, one after the other, where nothing is known of
/// the origin of the stream and UTF-8 is an allowed guess.
pub uninterp spec fn guessed_encoding(chunks: Seq<Seq<u8>>) -> Seq<char>;

/// Whether the encoding that `chardetng` guesses for a stream of which
/// `chunks` have been seen, one after the other, scores higher than at least
/// one other.
pub uninterp spec fn guess_is_firm(chunks: Seq<Seq<u8>>) -> bool;

/// What `encoding_rs_io` makes of `bytes` when it decodes them to UTF-8 by
/// the encoding that the label `label` names, or, with no label or a label
/// that names no encoding, by the byte order mark of the bytes.
pub uninterp spec fn transcoded(bytes: Seq<u8>, label: Option<Seq<char>>) -> Seq<u8>;

/// A new detector (`EncodingDetector::new`): it has been fed nothing.
#[verifier::external_body]
fn new_detector() -> (detector: chardetng::EncodingDetector)
    ensures
        fed_chunks(detector) == Seq::<Seq<u8>>::empty(),
{
    chardetng::EncodingDetector::new()
}

/// Feeds a detector one more chunk of a stream that goes on
/// (`EncodingDetector::feed`, never with the mark of the last chunk): the
/// chunk is added to those that the detector has been fed.
#[verifier::external_body]
fn feed(detector: &mut chardetng::EncodingDetector, chunk: &Vec<u8>)
    ensures
        fed_chunks(*final(detector)) == fed_chunks(*old(detector)).push(chunk@),
{
    detector.feed(chunk.as_slice(), false);
}

/// The name of the encoding that a detector guesses
/// (`EncodingDetector::guess` and `Encoding::name`, with no top-level domain
/// and UTF-8 allowed): it depends on nothing but the chunks fed so far.
#[verifier::external_body]
fn guess(detector: &chardetng::EncodingDetector) -> (name: &'static str)
    ensures
        name@ == guessed_encoding(fed_chunks(*detector)),
{
    detector.guess(None, true).name()
}

/// Whether the guess of a detector is firm (`EncodingDetector::guess_assess`,
/// with no top-level domain and UTF-8 allowed): it depends on nothing but
/// the chunks fed so far.
#[verifier::external_body]
fn guess_assess(detector: &chardetng::EncodingDetector) -> (firm: bool)
    ensures
        firm == guess_is_firm(fed_chunks(*detector)),
{
    detector.guess_assess(None, true).1
}

/// Decodes bytes to UTF-8 (`DecodeReaderBytesBuilder` of `encoding_rs_io`
/// over the bytes, with the encoding that `Encoding::for_label` finds for
/// the label): the result depends on nothing but the bytes and the label.
#[verifier::external_body]
fn transcode(bytes: &Vec<u8>, label: Option<&str>) -> (out: Vec<u8>)
    ensures
        out@ == transcoded(bytes@, label_view(label)),
{
    let encoding = match label {
        Some(l) => encoding_rs::Encoding::for_label(l.as_bytes()),
        None => None,
    };
    let mut reader = encoding_rs_io::DecodeReaderBytesBuilder::new()
        .encoding(encoding)
        .build(bytes.as_slice());
    let mut out = Vec::new();
    let _ = std::io::Read::read_to_end(&mut reader, &mut out);
    out
}

/// The text that bytes hold in UTF-8 (`String::from_utf8`), if they are
/// valid UTF-8.
#[verifier::external_body]
fn utf8_text(bytes: Vec<u8>) -> (text: Option<String>)
    ensures
        match text {
            Some(t) => valid_utf8(bytes@) && t@ == decode_utf8(bytes@),
            None => !valid_utf8(bytes@),
        },
{
    String::from_utf8(bytes).ok()
}

/// The view of an optional label.
pub open spec fn label_view(label: Option<&str>) -> Option<Seq<char>> {
    match label {
        Some(l) => Some(l@),
        None => None,
    }
}

/// The index of the first byte `b` at or after `i`, or `s.len()` where there
/// is none.
pub open spec fn find_byte(s: Seq<u8>, i: int, b: u8) -> int
    decreases s.len() - i,
{
    if 0 <= i < s.len() && s[i] != b {
        find_byte(s, i + 1, b)
    } else {
        i
    }
}

/// The index just past the line that starts at `i`, its line feed included.
pub open spec fn chunk_end(s: Seq<u8>, i: int) -> int {
    let stop = find_byte(s, i, 10);
    if stop < s.len() {
        stop + 1
    } else {
        s.len() as int
    }
}

/// The chunks in which the bytes of a file are looked at to guess its
/// encoding, when the chunks `fed` have been looked at and the next one
/// starts at `i`. A chunk is a line with its line feed. All lines are looked
/// at or, with a limit, only the lines up to the first one at which the
/// limit is reached and the guess is firm.
pub open spec fn sniffed_chunks(
    s: Seq<u8>,
    i: int,
    fed: Seq<Seq<u8>>,
    limit: Option<usize>,
) -> Seq<Seq<u8>>
    decreases s.len() - i,
{
    if i < 0 || i >= s.len() {
        fed
    } else {
        let j = chunk_end(s, i);
        let next = fed.push(s.subrange(i, j));
        if limit is Some && next.len() >= limit->0 && guess_is_firm(next) {
            next
        } else if i < j <= s.len() {
            sniffed_chunks(s, j, next, limit)
        } else {
            next
        }
    }
}

/// The name of the encoding that is guessed for the bytes of a file, which
/// are looked at a line at a time.
pub open spec fn detected_encoding(s: Seq<u8>, limit: Option<usize>) -> Seq<char> {
    guessed_encoding(sniffed_chunks(s, 0, Seq::empty(), limit))
}

/// The label by which bytes are decoded: the one given, or the name of the
/// encoding that is guessed from the first `lines` lines.
pub open spec fn chosen_label(s: Seq<u8>, label: Option<Seq<char>>, lines: usize) -> Seq<char> {
    match label {
        Some(l) => l,
        None => detected_encoding(s, Some(lines)),
    }
}

/// Where the line that starts at `i` ends, and where the next one starts.
/// A line ends before a line feed, and before the carriage return in front
/// of it if there is one; the last line may end at the end of the bytes.
pub open spec fn byte_line_bounds(s: Seq<u8>, i: int) -> (int, int) {
    let stop = find_byte(s, i, 10);
    if stop >= s.len() {
        (s.len() as int, s.len() as int)
    } else if i < stop && s[stop - 1] == 13 {
        (stop - 1, stop + 1)
    } else {
        (stop, stop + 1)
    }
}

/// The text of a line of bytes, if the line is valid UTF-8.
pub open spec fn line_text(line: Seq<u8>) -> Option<Seq<char>> {
    if valid_utf8(line) {
        Some(decode_utf8(line))
    } else {
        None
    }
}

/// The lines that UTF-8 bytes hold from `i` on: for each, its text, or
/// nothing where the line is not valid UTF-8.
pub open spec fn text_lines_from(s: Seq<u8>, i: int) -> Seq<Option<Seq<char>>>
    decreases s.len() - i,
{
    if i < 0 || i >= s.len() {
        Seq::empty()
    } else {
        let (end, next) = byte_line_bounds(s, i);
        if i < next <= s.len() {
            seq![line_text(s.subrange(i, end))] + text_lines_from(s, next)
        } else {
            Seq::empty()
        }
    }
}

/// The lines that the bytes of a file hold when they are decoded by the
/// label `label`.
pub open spec fn decoded_lines(bytes: Seq<u8>, label: Option<Seq<char>>) -> Seq<Option<Seq<char>>> {
    text_lines_from(transcoded(bytes, label), 0)
}

/// The views of optional lines.
pub open spec fn lines_view(lines: Seq<Option<String>>) -> Seq<Option<Seq<char>>> {
    Seq::new(lines.len(), |k: int| crate::text::opt_text(lines[k]))
}

/// The bytes `v[from..to]` in a vector of their own.
fn sub_bytes(v: &Vec<u8>, from: usize, to: usize) -> (r: Vec<u8>)
    requires
        from <= to <= v.len(),
    ensures
        r@ == v@.subrange(from as int, to as int),
{
    let mut r: Vec<u8> = Vec::new();
    let mut i = from;
    while i < to
        invariant
            from <= i <= to <= v.len(),
            r@ == v@.subrange(from as int, i as int),
        decreases to - i,
    {
        r.push(v[i]);
        i += 1;
    }
    r
}

/// Finds the first byte `b` at or after `i`.
fn scan_to_byte(v: &Vec<u8>, i: usize, b: u8) -> (j: usize)
    requires
        i <= v.len(),
    ensures
        j == find_byte(v@, i as int, b),
        i <= j <= v.len(),
{
    let mut j = i;
    while j < v.len() && v[j] != b
        invariant
            i <= j <= v.len(),
            find_byte(v@, i as int, b) == find_byte(v@, j as int, b),
        decreases v.len() - j,
    {
        j += 1;
    }
    j
}

/// Guess the encoding of a file from its bytes, which are looked at a line
/// at a time. With a line limit, the guess is made as soon as that many
/// lines have been looked at and the guess is firm. The result is the name
/// of the encoding.
pub fn detect_encoding(bytes: &Vec<u8>, line_limit: Option<usize>) -> (name: &'static str)
    ensures
        name@ == detected_encoding(bytes@, line_limit),
{
    let mut detector = new_detector();
    let mut i: usize = 0;
    let mut counter: usize = 0;
    while i < bytes.len()
        invariant
            i <= bytes.len(),
            counter <= i,
            counter == fed_chunks(detector).len(),
            sniffed_chunks(bytes@, 0, Seq::empty(), line_limit) == sniffed_chunks(
                bytes@,
                i as int,
                fed_chunks(detector),
                line_limit,
            ),
        decreases bytes.len() - i,
    {
        let stop = scan_to_byte(bytes, i, 10);
        let j = if stop < bytes.len() {
            stop + 1
        } else {
            bytes.len()
        };
        feed(&mut detector, &sub_bytes(bytes, i, j));
        counter += 1;
        match line_limit {
            Some(lines) => {
                if counter >= lines && guess_assess(&detector) {
                    return guess(&detector);
                }
            },
            None => {},
        }
        i = j;
    }
    guess(&detector)
}

/// The lines that UTF-8 bytes hold: for each, its text, or nothing where the
/// line is not valid UTF-8.
pub fn text_lines(v: &Vec<u8>) -> (lines: Vec<Option<String>>)
    ensures
        lines_view(lines@) == text_lines_from(v@, 0),
{
    let mut lines: Vec<Option<String>> = Vec::new();
    let mut i: usize = 0;
    assert(lines_view(lines@) =~= Seq::empty());
    while i < v.len()
        invariant
            i <= v.len(),
            text_lines_from(v@, 0) == lines_view(lines@) + text_lines_from(v@, i as int),
        decreases v.len() - i,
    {
        let stop = scan_to_byte(v, i, 10);
        let (end, next) = if stop >= v.len() {
            (v.len(), v.len())
        } else if i < stop && v[stop - 1] == 13 {
            (stop - 1, stop + 1)
        } else {
            (stop, stop + 1)
        };
        let line = utf8_text(sub_bytes(v, i, end));
        let ghost before = lines_view(lines@);
        let ghost text = crate::text::opt_text(line);
        lines.push(line);
        proof {
            assert(text == line_text(v@.subrange(i as int, end as int)));
            assert(lines_view(lines@) =~= before + seq![text]);
            assert(before + (seq![text] + text_lines_from(v@, next as int)) =~= (before + seq![
                text,
            ]) + text_lines_from(v@, next as int));
        }
        i = next;
    }
    assert(lines_view(lines@) + Seq::empty() =~= lines_view(lines@));
    lines
}

/// The lines of a file, decoded by the encoding that a label names. With no
/// label, or one that names no encoding, the byte order mark decides.
pub fn decode_lines(bytes: &Vec<u8>, label: Option<&str>) -> (lines: Vec<Option<String>>)
    ensures
        lines_view(lines@) == decoded_lines(bytes@, label_view(label)),
{
    text_lines(&transcode(bytes, label))
}

/// The label by which the bytes of a file are decoded: the one given, or
/// the name of the encoding that is guessed from the first `lines` lines.
pub fn choose_label<'a>(bytes: &Vec<u8>, label: Option<&'a str>, lines: usize) -> (r: &'a str)
    ensures
        r@ == chosen_label(bytes@, label_view(label), lines),
{
    match label {
        Some(l) => l,
        None => detect_encoding(bytes, Some(lines)),
    }
}

} // verus!
