//! The serial console byte stream multiplexer: a fixed-capacity buffer is
//! filled by reads from the guest's serial socket, and every complete line up
//! to the last newline of the filled region is handed to a per-line callback;
//! the trailing partial line is shifted to the front of the buffer, which is
//! restored to full capacity.
//!
//! Lines follow the text convention: the terminating newline is not part of
//! the line, a carriage return immediately before the newline is dropped,
//! and a final newline does not open a new empty line.  The filled region is
//! UTF-8 text; bytes that are not are reported as an error.  A filled region
//! of full capacity without any newline cannot make progress; the reader
//! outside this crate treats it as the end of the stream.

use vstd::prelude::*;
use vstd::utf8::valid_utf8;
use vstd::utf8::decode_utf8;

verus! {

/// The capacity of the read buffer, in bytes.
pub const SERIAL_BUFFER_SIZE: usize = 4096;

/// The connect timeout of the serial console reader, in seconds.
pub const SERIAL_CONNECT_TIMEOUT_SECONDS: u64 = 1;

/// The per-read timeout of the serial console reader, in seconds; an expired
/// read is retried, not fatal.
pub const SERIAL_READ_TIMEOUT_SECONDS: u64 = 1;

/// Why reading the serial console failed.  Failures of the underlying socket
/// carry the text of the error.
#[derive(Debug)]
pub enum SerialError {
    /// Connecting to the serial socket failed.
    Connecting(String),
    /// Writing the initial command failed.
    Writing(String),
    /// A read from the socket failed.
    Reading(String),
    /// The filled region of the buffer is not UTF-8 text.
    UTF8,
}

/// Relies on `core::str::from_utf8` of std: it succeeds exactly on valid
/// UTF-8 input, and the returned text is the decoded input.
#[verifier::external_body]
pub fn utf8_to_str(bytes: &[u8]) -> (r: Option<&str>)
    ensures
        r is Some <==> valid_utf8(bytes@),
        r is Some ==> r.unwrap()@ == decode_utf8(bytes@),
{
    core::str::from_utf8(bytes).ok()
}

/// The index of the last newline byte of `s`, or `-1` if there is none.
pub open spec fn last_nl(s: Seq<u8>) -> int
    decreases s.len(),
{
    if s.len() == 0 {
        -1
    } else if s[s.len() - 1] == 10 {
        s.len() - 1
    } else {
        last_nl(s.take(s.len() - 1))
    }
}

/// The index of the first newline byte of `s`, or `-1` if there is none.
pub open spec fn first_nl(s: Seq<u8>) -> int
    decreases s.len(),
{
    if s.len() == 0 {
        -1
    } else if s[0] == 10 {
        0
    } else if first_nl(s.skip(1)) < 0 {
        -1
    } else {
        first_nl(s.skip(1)) + 1
    }
}

/// `s` split at its newline bytes, which are dropped; every split yields at
/// least one piece, and consecutive newlines yield empty pieces.
pub open spec fn split_nl(s: Seq<u8>) -> Seq<Seq<u8>>
    decreases s.len(),
{
    let i = first_nl(s);
    if 0 <= i < s.len() {
        seq![s.take(i)] + split_nl(s.skip(i + 1))
    } else {
        seq![s]
    }
}

/// A line without a trailing carriage return.
pub open spec fn strip_cr(l: Seq<u8>) -> Seq<u8> {
    if l.len() > 0 && l.last() == 13 {
        l.take(l.len() - 1)
    } else {
        l
    }
}

/// The lines of `p`: the pieces between newlines, without a trailing
/// carriage return each, and without the empty piece a final newline opens.
pub open spec fn console_lines(p: Seq<u8>) -> Seq<Seq<u8>> {
    let pieces = split_nl(p);
    let kept = if p.len() == 0 {
        Seq::empty()
    } else if p.last() == 10 {
        pieces.take(pieces.len() - 1)
    } else {
        pieces
    };
    kept.map_values(|l: Seq<u8>| strip_cr(l))
}

/// `first_nl` names a newline position and nothing before one.
proof fn lemma_first_nl(s: Seq<u8>)
    ensures
        first_nl(s) == -1 ==> forall|j: int| 0 <= j < s.len() ==> s[j] != 10,
        first_nl(s) >= 0 ==> {
            &&& 0 <= first_nl(s) < s.len()
            &&& s[first_nl(s)] == 10
            &&& forall|j: int| 0 <= j < first_nl(s) ==> s[j] != 10
        },
    decreases s.len(),
{
    if s.len() > 0 && s[0] != 10 {
        lemma_first_nl(s.skip(1));
        if first_nl(s) == -1 {
            assert forall|j: int| 0 <= j < s.len() implies s[j] != 10 by {
                if j > 0 {
                    assert(s.skip(1)[j - 1] != 10);
                }
            }
        } else {
            assert forall|j: int| 0 <= j < first_nl(s) implies s[j] != 10 by {
                if j > 0 {
                    assert(s.skip(1)[j - 1] != 10);
                }
            }
        }
    }
}

/// A newline at `k` with none before it is the first newline.
proof fn lemma_first_nl_at(s: Seq<u8>, k: int)
    requires
        0 <= k < s.len(),
        s[k] == 10,
        forall|j: int| 0 <= j < k ==> s[j] != 10,
    ensures
        first_nl(s) == k,
    decreases k,
{
    if k > 0 {
        assert forall|j: int| 0 <= j < k - 1 implies s.skip(1)[j] != 10 by {
            assert(s[j + 1] != 10);
        }
        lemma_first_nl_at(s.skip(1), k - 1);
    }
}

/// Every split has at least one piece.
proof fn lemma_split_nl_len(s: Seq<u8>)
    ensures
        split_nl(s).len() >= 1,
{
}

/// The index of the last newline of the filled region, scanned from the end.
pub fn find_last_newline(buf: &Vec<u8>, used: usize) -> (r: Option<usize>)
    requires
        used <= buf@.len(),
    ensures
        r is Some ==> r.unwrap() == last_nl(buf@.take(used as int)) && r.unwrap() < used,
        r is None ==> last_nl(buf@.take(used as int)) == -1,
{
    let mut i: usize = used;
    while i > 0
        invariant
            i <= used <= buf@.len(),
            last_nl(buf@.take(used as int)) == last_nl(buf@.take(i as int)),
        decreases i,
    {
        let ghost t = buf@.take(i as int);
        if buf[i - 1] == 10 {
            proof {
                assert(t[t.len() - 1] == 10);
            }
            return Some(i - 1);
        }
        proof {
            assert(t[t.len() - 1] != 10);
            assert(t.take(t.len() - 1) =~= buf@.take(i as int - 1));
        }
        i = i - 1;
    }
    proof {
        assert(buf@.take(0) =~= Seq::<u8>::empty());
    }
    None
}

/// Collects the complete lines of `buf[..upto]`, newline pieces without
/// their trailing carriage return, each decoded from UTF-8.  `None` when a
/// line is not UTF-8 text.
pub fn collect_lines(buf: &Vec<u8>, upto: usize) -> (r: Option<Vec<String>>)
    requires
        upto <= buf@.len(),
    ensures
        ({
            let p = buf@.take(upto as int);
            &&& r is Some ==> {
                &&& r.unwrap()@.len() == console_lines(p).len()
                &&& forall|k: int|
                    0 <= k < console_lines(p).len() ==> valid_utf8(#[trigger] console_lines(p)[k])
                        && r.unwrap()@[k]@ == decode_utf8(console_lines(p)[k])
            }
            &&& r is None ==> exists|k: int|
                0 <= k < console_lines(p).len() && !valid_utf8(#[trigger] console_lines(p)[k])
        }),
{
    let ghost p = buf@.take(upto as int);
    let ghost pieces = split_nl(p);
    let mut lines: Vec<String> = Vec::new();
    let mut seg_start: usize = 0;
    let mut i: usize = 0;
    proof {
        assert(p.skip(0) =~= p);
        assert(pieces.skip(0) =~= pieces);
    }
    while i < upto
        invariant
            upto <= buf@.len(),
            p == buf@.take(upto as int),
            pieces == split_nl(p),
            0 <= seg_start <= i <= upto,
            seg_start == 0 || p[seg_start - 1] == 10,
            forall|j: int| seg_start <= j < i ==> p[j] != 10,
            split_nl(p.skip(seg_start as int)) =~= pieces.skip(lines@.len() as int),
            lines@.len() <= pieces.len(),
            forall|k: int|
                0 <= k < lines@.len() ==> valid_utf8(strip_cr(#[trigger] pieces[k]))
                    && lines@[k]@ == decode_utf8(strip_cr(pieces[k])),
        decreases upto - i,
    {
        if buf[i] == 10 {
            let ghost nseg = lines@.len() as int;
            let ghost rem = p.skip(seg_start as int);
            let ghost seg = p.subrange(seg_start as int, i as int);
            proof {
                assert(rem[i - seg_start as int] == 10);
                assert forall|j: int| 0 <= j < i - seg_start as int implies rem[j] != 10 by {
                    assert(p[seg_start as int + j] != 10);
                }
                lemma_first_nl_at(rem, i - seg_start as int);
                assert(split_nl(rem) == seq![rem.take(i - seg_start as int)] + split_nl(
                    rem.skip(i - seg_start as int + 1),
                ));
                assert(rem.take(i - seg_start as int) =~= seg);
                assert(rem.skip(i - seg_start as int + 1) =~= p.skip(i as int + 1));
                assert(pieces.skip(nseg) =~= seq![seg] + split_nl(p.skip(i as int + 1)));
                assert(pieces[nseg] == pieces.skip(nseg)[0]);
                assert(pieces[nseg] == seg);
                assert(pieces.skip(nseg + 1) =~= pieces.skip(nseg).skip(1));
                assert(pieces.skip(nseg + 1) =~= split_nl(p.skip(i as int + 1)));
                lemma_split_nl_len(p.skip(i as int + 1));
                assert(pieces.len() >= nseg + 2);
            }
            let seg_end = if i > seg_start && buf[i - 1] == 13 {
                i - 1
            } else {
                i
            };
            let seg_slice = vstd::slice::slice_subrange(buf.as_slice(), seg_start, seg_end);
            proof {
                assert(seg_slice@ =~= strip_cr(seg));
            }
            match utf8_to_str(seg_slice) {
                None => {
                    proof {
                        assert(console_lines(p)[nseg] == strip_cr(pieces[nseg]));
                        assert(0 <= nseg < console_lines(p).len());
                        assert(!valid_utf8(console_lines(p)[nseg]));
                    }
                    return None;
                },
                Some(s) => {
                    lines.push(s.to_owned());
                },
            }
            seg_start = i + 1;
        }
        i = i + 1;
    }
    let ghost nseg = lines@.len() as int;
    let ghost rem = p.skip(seg_start as int);
    proof {
        lemma_first_nl(rem);
        if first_nl(rem) >= 0 {
            assert(p[seg_start as int + first_nl(rem)] == 10);
            assert(false);
        }
        assert(split_nl(rem) == seq![rem]);
        assert(pieces.skip(nseg) =~= seq![rem]);
        assert(pieces.len() == nseg + 1);
        assert(pieces[nseg] == pieces.skip(nseg)[0]);
        assert(pieces[nseg] == rem);
    }
    if seg_start == upto {
        proof {
            if upto > 0 {
                assert(p[upto as int - 1] == 10);
                assert(p.last() == 10);
                assert(console_lines(p).len() == nseg);
            } else {
                assert(console_lines(p).len() == 0);
            }
        }
        return Some(lines);
    }
    proof {
        assert(p.last() == rem.last());
        assert(p.last() != 10);
        assert(console_lines(p).len() == nseg + 1);
    }
    let seg_end = if upto > seg_start && buf[upto - 1] == 13 {
        upto - 1
    } else {
        upto
    };
    let seg_slice = vstd::slice::slice_subrange(buf.as_slice(), seg_start, seg_end);
    proof {
        assert(seg_slice@ =~= strip_cr(rem));
        assert(console_lines(p)[nseg] == strip_cr(pieces[nseg]));
    }
    match utf8_to_str(seg_slice) {
        None => {
            proof {
                assert(!valid_utf8(console_lines(p)[nseg]));
            }
            None
        },
        Some(s) => {
            lines.push(s.to_owned());
            Some(lines)
        },
    }
}

/// Whether the chunker succeeds on the given filled region: every complete
/// line and the trailing partial line are UTF-8 text.
pub open spec fn chunk_ok(prefix: Seq<u8>) -> bool {
    let size = last_nl(prefix);
    if size < 0 {
        valid_utf8(prefix)
    } else {
        &&& forall|k: int|
            0 <= k < console_lines(prefix.take(size)).len() ==> valid_utf8(
                #[trigger] console_lines(prefix.take(size))[k],
            )
        &&& valid_utf8(prefix.skip(size + 1))
    }
}

/// The complete lines of a filled region: the lines before its last
/// newline, and none at all when it has no newline.
pub open spec fn chunk_lines(prefix: Seq<u8>) -> Seq<Seq<u8>> {
    let size = last_nl(prefix);
    if size < 0 {
        Seq::empty()
    } else {
        console_lines(prefix.take(size))
    }
}

/// Hands every complete line of `buf[..bytes_used]` — the pieces up to and
/// including the last newline, each without its newline and any carriage
/// return before it — to `f`, in order; then shifts the trailing partial
/// line to the front of the buffer and restores it to full capacity.
/// Without a newline in the filled region nothing is emitted and the buffer
/// is returned unchanged.  The filled region must be UTF-8 text; otherwise
/// the `UTF8` error is returned and `f` sees nothing.
///
/// The callback only has to accept the decoded complete lines of the filled
/// region, so a caller knows that nothing else can be handed to it.
pub fn chunk_to_lines<F: Fn(&str)>(buf: Vec<u8>, bytes_used: usize, f: F) -> (r: Result<
    (Vec<u8>, usize),
    SerialError,
>)
    requires
        buf@.len() == SERIAL_BUFFER_SIZE,
        bytes_used <= buf@.len(),
        forall|s: &str|
            (exists|k: int|
                0 <= k < chunk_lines(buf@.take(bytes_used as int)).len() && s@ == decode_utf8(
                    #[trigger] chunk_lines(buf@.take(bytes_used as int))[k],
                )) ==> #[trigger] call_requires(f, (s,)),
    ensures
        ({
            let prefix = buf@.take(bytes_used as int);
            let size = last_nl(prefix);
            &&& r is Ok <==> chunk_ok(prefix)
            &&& r is Err ==> r->Err_0 is UTF8
            &&& (r is Ok && size < 0) ==> r->Ok_0.0@ == buf@ && r->Ok_0.1 == bytes_used
            &&& (r is Ok && size >= 0) ==> r->Ok_0.1 == bytes_used - size - 1 && r->Ok_0.0@
                == buf@.skip(size + 1) + Seq::new((size + 1) as nat, |q: int| 0u8)
        }),
{
    let ghost prefix = buf@.take(bytes_used as int);
    match find_last_newline(&buf, bytes_used) {
        None => {
            let whole = vstd::slice::slice_subrange(buf.as_slice(), 0, bytes_used);
            proof {
                assert(whole@ =~= prefix);
            }
            if utf8_to_str(whole).is_none() {
                return Err(SerialError::UTF8);
            }
            Ok((buf, bytes_used))
        },
        Some(size) => {
            proof {
                assert(buf@.take(size as int) =~= prefix.take(size as int));
            }
            match collect_lines(&buf, size) {
                None => Err(SerialError::UTF8),
                Some(lines_vec) => {
                    let rem_slice = vstd::slice::slice_subrange(
                        buf.as_slice(),
                        size + 1,
                        bytes_used,
                    );
                    proof {
                        assert(rem_slice@ =~= prefix.skip(size as int + 1));
                    }
                    if utf8_to_str(rem_slice).is_none() {
                        return Err(SerialError::UTF8);
                    }
                    let ghost lines_spec = chunk_lines(prefix);
                    proof {
                        assert(lines_spec == console_lines(prefix.take(size as int)));
                        assert(console_lines(buf@.take(size as int)) == lines_spec);
                    }
                    let mut idx: usize = 0;
                    while idx < lines_vec.len()
                        invariant
                            forall|s: &str|
                                (exists|k: int|
                                    0 <= k < lines_spec.len() && s@ == decode_utf8(
                                        #[trigger] lines_spec[k],
                                    )) ==> #[trigger] call_requires(f, (s,)),
                            lines_vec@.len() == lines_spec.len(),
                            forall|k: int|
                                0 <= k < lines_vec@.len() ==> lines_vec@[k]@ == decode_utf8(
                                    #[trigger] lines_spec[k],
                                ),
                            0 <= idx <= lines_vec@.len(),
                        decreases lines_vec@.len() - idx,
                    {
                        let line = lines_vec[idx].as_str();
                        proof {
                            assert(line@ == decode_utf8(lines_spec[idx as int]));
                            assert(exists|k: int|
                                0 <= k < lines_spec.len() && line@ == decode_utf8(
                                    #[trigger] lines_spec[k],
                                ));
                        }
                        f(line);
                        idx = idx + 1;
                    }
                    let mut b = buf;
                    let mut tail = b.split_off(size + 1);
                    tail.resize(SERIAL_BUFFER_SIZE, 0u8);
                    proof {
                        assert(tail@ =~= buf@.skip(size as int + 1) + Seq::new(
                            (size + 1) as nat,
                            |q: int| 0u8,
                        ));
                    }
                    Ok((tail, bytes_used - size - 1))
                },
            }
        },
    }
}

} // verus!
