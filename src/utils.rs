use vstd::prelude::*;
use vstd::string::StringSliceAdditionalSpecFns;
use vstd::slice::slice_subrange;
use vstd::utf8::*;

verus! {

/// The buffer left by writing the bytes `value` into a fixed buffer that held `prior`.
/// A shorter value is followed by a NUL terminator and then what `prior` held; a value of
/// exactly the buffer's length fills it with no room for a terminator; a longer value is cut to
/// leave room for the terminator. An empty buffer stays empty.
pub open spec fn fixed_buffer_encoding(prior: Seq<u8>, value: Seq<u8>) -> Seq<u8> {
    if value.len() < prior.len() {
        value + seq![0u8] + prior.skip(value.len() + 1 as int)
    } else if value.len() == prior.len() || prior.len() == 0 {
        value.take(prior.len() as int)
    } else {
        value.take(prior.len() - 1) + seq![0u8]
    }
}

/// A fixed buffer holding only zero bytes: the empty C string.
pub fn zeroed_buffer<const N: usize>() -> (r: [u8; N])
    ensures
        r@ == Seq::new(N as nat, |i: int| 0u8),
{
    // What a fill expression holds is not known for a generic length, so every byte is set
    // under a loop invariant.
    let mut r = [0u8; N];
    let mut i: usize = 0;
    while i < N
        invariant
            i <= N,
            r@.len() == N,
            forall|j: int| 0 <= j < i ==> r@[j] == 0,
        decreases N - i,
    {
        r[i] = 0;
        i += 1;
    }
    assert(r@ =~= Seq::new(N as nat, |i: int| 0u8));
    r
}

/// Writes `value` into `buffer` as a C string. A value that does not fit is truncated and still
/// terminated; a value of exactly the buffer's length is written without a terminator.
/// Returns whether the whole value fit.
pub fn str_to_fixed_buffer(buffer: &mut [u8], value: &str) -> (fits: bool)
    ensures
        final(buffer)@ == fixed_buffer_encoding(old(buffer)@, value.spec_bytes()),
        fits == (value.spec_bytes().len() <= old(buffer)@.len()),
{
    let bytes = value.as_bytes();
    let copy_length: usize = if bytes.len() <= buffer.len() {
        bytes.len()
    } else if buffer.len() == 0 {
        0
    } else {
        buffer.len() - 1
    };
    let mut i: usize = 0;
    while i < copy_length
        invariant
            copy_length <= buffer@.len(),
            copy_length <= bytes@.len(),
            i <= copy_length,
            bytes@ == value.spec_bytes(),
            buffer@.len() == old(buffer)@.len(),
            forall|j: int| 0 <= j < i ==> buffer@[j] == bytes@[j],
            forall|j: int| i <= j < buffer@.len() ==> buffer@[j] == old(buffer)@[j],
        decreases copy_length - i,
    {
        buffer[i] = bytes[i];
        i += 1;
    }
    if copy_length < buffer.len() {
        buffer[copy_length] = 0;
    }
    assert(buffer@ =~= fixed_buffer_encoding(old(buffer)@, value.spec_bytes()));
    bytes.len() <= buffer.len()
}


/// The buffer left by writing the bytes `message` into a buffer that held `prior` so that it is
/// always terminated: as much of the message as leaves room for the NUL, then the NUL, then what
/// `prior` held. An empty buffer is left as it is.
pub open spec fn terminated_message(prior: Seq<u8>, message: Seq<u8>) -> Seq<u8> {
    if prior.len() == 0 {
        prior
    } else if message.len() < prior.len() {
        fixed_buffer_encoding(prior, message)
    } else {
        message.take(prior.len() - 1) + seq![0u8]
    }
}

/// Writes a diagnostic into the caller's error buffer: truncated to fit, never past its end, and
/// always NUL-terminated unless the buffer is empty.
pub fn write_error_message(buffer: &mut [u8], message: &str)
    ensures
        final(buffer)@ == terminated_message(old(buffer)@, message.spec_bytes()),
{
    if buffer.len() == 0 {
        return;
    }
    str_to_fixed_buffer(buffer, message);
    if message.as_bytes().len() >= buffer.len() {
        let last = buffer.len() - 1;
        buffer[last] = 0;
    }
    proof {
        let m = message.spec_bytes();
        if m.len() >= old(buffer)@.len() {
            assert(buffer@ =~= m.take(old(buffer)@.len() - 1) + seq![0u8]);
        }
    }
}

/// The number of bytes before the first NUL of `buffer`, or its length when it holds none.
pub open spec fn c_str_len(buffer: Seq<u8>) -> nat
    decreases buffer.len(),
{
    if buffer.len() == 0 || buffer[0] == 0 {
        0
    } else {
        1 + c_str_len(buffer.drop_first())
    }
}

/// The text a fixed buffer holds: the bytes before its first NUL (or all of them) read as
/// UTF-8, and nothing when they are not well-formed.
pub open spec fn fixed_buffer_text(buffer: Seq<u8>) -> Option<Seq<char>> {
    let bytes = buffer.take(c_str_len(buffer) as int);
    if valid_utf8(bytes) {
        Some(decode_utf8(bytes))
    } else {
        None
    }
}

/// `n` is where the C string in `buffer` ends.
pub proof fn lemma_c_str_len(buffer: Seq<u8>, n: int)
    requires
        0 <= n <= buffer.len(),
        forall|j: int| 0 <= j < n ==> buffer[j] != 0,
        n == buffer.len() || buffer[n] == 0,
    ensures
        c_str_len(buffer) == n,
    decreases n,
{
    if n > 0 {
        lemma_c_str_len(buffer.drop_first(), n - 1);
    }
}

/// Relies on `core::str::from_utf8`: it succeeds exactly on well-formed UTF-8, and the text it
/// returns is made of those very bytes.
#[verifier::external_body]
fn utf8_text(bytes: &[u8]) -> (text: Option<&str>)
    ensures
        text is Some <==> valid_utf8(bytes@),
        text is Some ==> text->0.spec_bytes() == bytes@,
{
    core::str::from_utf8(bytes).ok()
}

/// Reads the C string in `buffer`: the bytes up to the first NUL, or up to the end of the buffer
/// when there is none. Returns `None` when those bytes are not well-formed UTF-8.
pub fn fixed_buffer_to_str(buffer: &[u8]) -> (text: Option<&str>)
    ensures
        match text {
            Some(t) => fixed_buffer_text(buffer@) == Some(t@),
            None => fixed_buffer_text(buffer@) is None,
        },
{
    let mut length: usize = 0;
    while length < buffer.len() && buffer[length] != 0
        invariant
            length <= buffer@.len(),
            forall|j: int| 0 <= j < length ==> buffer@[j] != 0,
        decreases buffer@.len() - length,
    {
        length += 1;
    }
    proof {
        lemma_c_str_len(buffer@, length as int);
    }
    let text = utf8_text(slice_subrange(buffer, 0, length));
    proof {
        broadcast use encode_utf8_decode_utf8;
        if let Some(t) = text {
            assert(decode_utf8(t.spec_bytes()) == t@);
        }
    }
    text
}


/// A character other than NUL is encoded without any zero byte.
proof fn lemma_encode_scalar_nonzero(c: char)
    requires
        c != '\0',
    ensures
        forall|j: int| 0 <= j < encode_scalar(c as u32).len() ==> #[trigger] encode_scalar(c as u32)[j] != 0,
{
    broadcast use char_is_scalar;

    let v = c as u32;
    assert(v != 0) by {
        char_u32_cast(c, v);
    }
    if has_width_1_encoding(v) {
        assert(leading_byte_width_1(v) != 0) by (bit_vector)
            requires
                v != 0 && v <= 0x7f,
        ;
    } else {
        assert(last_continuation_byte(v) != 0) by (bit_vector);
        assert(second_last_continuation_byte(v) != 0) by (bit_vector);
        assert(third_last_continuation_byte(v) != 0) by (bit_vector);
        assert(leading_byte_width_2(v) != 0) by (bit_vector);
        assert(leading_byte_width_3(v) != 0) by (bit_vector);
        assert(leading_byte_width_4(v) != 0) by (bit_vector);
    }
}

/// Text without NUL characters is encoded without any zero byte.
proof fn lemma_encode_utf8_nonzero(text: Seq<char>)
    requires
        forall|i: int| 0 <= i < text.len() ==> text[i] != '\0',
    ensures
        forall|j: int| 0 <= j < encode_utf8(text).len() ==> encode_utf8(text)[j] != 0,
    decreases text.len(),
{
    if text.len() > 0 {
        lemma_encode_scalar_nonzero(text[0]);
        lemma_encode_utf8_nonzero(text.drop_first());
        let head = encode_scalar(text[0] as u32);
        let tail = encode_utf8(text.drop_first());
        assert forall|j: int| 0 <= j < encode_utf8(text).len() implies encode_utf8(text)[j] != 0 by {
            if j < head.len() {
                assert(encode_utf8(text)[j] == head[j]);
            } else {
                assert(encode_utf8(text)[j] == tail[j - head.len()]);
            }
        }
    }
}

/// Writing a text into a fixed buffer and reading it back gives the same text, whenever its UTF-8
/// encoding fits in the buffer (with or without room for the terminator) and it holds no NUL.
pub proof fn lemma_fixed_buffer_round_trip(prior: Seq<u8>, text: Seq<char>)
    requires
        encode_utf8(text).len() <= prior.len(),
        forall|i: int| 0 <= i < text.len() ==> text[i] != '\0',
    ensures
        fixed_buffer_text(fixed_buffer_encoding(prior, encode_utf8(text))) == Some(text),
{
    broadcast use encode_utf8_valid_utf8, encode_utf8_decode_utf8;

    let bytes = encode_utf8(text);
    let written = fixed_buffer_encoding(prior, bytes);
    lemma_encode_utf8_nonzero(text);
    if bytes.len() < prior.len() {
        assert(written[bytes.len() as int] == 0);
    }
    assert forall|j: int| 0 <= j < bytes.len() implies written[j] != 0 by {
        assert(written[j] == bytes[j]);
    }
    lemma_c_str_len(written, bytes.len() as int);
    assert(written.take(bytes.len() as int) =~= bytes);
}

/// A value too long for a non-empty buffer leaves as many of its first bytes as fit before a
/// NUL terminator in the buffer's last byte; the buffer's length never changes.
pub proof fn lemma_fixed_buffer_truncation(prior: Seq<u8>, value: Seq<u8>)
    ensures
        fixed_buffer_encoding(prior, value).len() == prior.len(),
        value.len() > prior.len() > 0 ==> {
            &&& fixed_buffer_encoding(prior, value).take(prior.len() - 1) == value.take(
                prior.len() - 1,
            )
            &&& fixed_buffer_encoding(prior, value)[prior.len() - 1] == 0
        },
{
    if value.len() > prior.len() > 0 {
        assert(fixed_buffer_encoding(prior, value).take(prior.len() - 1) =~= value.take(
            prior.len() - 1,
        ));
    }
}


/// Whether the C string in `buffer` is exactly the bytes `value`.
pub fn fixed_buffer_holds(buffer: &[u8], value: &[u8]) -> (r: bool)
    ensures
        r == (buffer@.take(c_str_len(buffer@) as int) == value@),
{
    let mut length: usize = 0;
    while length < buffer.len() && buffer[length] != 0
        invariant
            length <= buffer@.len(),
            forall|j: int| 0 <= j < length ==> buffer@[j] != 0,
        decreases buffer@.len() - length,
    {
        length += 1;
    }
    proof {
        lemma_c_str_len(buffer@, length as int);
    }
    if length != value.len() {
        assert(buffer@.take(length as int).len() != value@.len());
        return false;
    }
    let mut i: usize = 0;
    while i < length
        invariant
            i <= length,
            length == value@.len(),
            length == c_str_len(buffer@),
            length <= buffer@.len(),
            forall|j: int| 0 <= j < i ==> buffer@[j] == value@[j],
        decreases length - i,
    {
        if buffer[i] != value[i] {
            assert(buffer@.take(length as int)[i as int] != value@[i as int]);
            return false;
        }
        i += 1;
    }
    assert(buffer@.take(length as int) =~= value@);
    true
}

} // verus!
