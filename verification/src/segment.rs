//! The first segment of a request path.
use vstd::prelude::*;
use vstd::utf8::*;

verus! {

/// The first segment of `path`: what stands before the first slash that
/// follows the leading character.
///
/// A path without such a slash is its own first segment, and so is one whose
/// leading character takes more than one byte.
pub open spec fn first_segment(path: Seq<char>) -> Seq<char> {
    if path.len() > 0 && path[0] <= '\u{7f}' && path.skip(1).contains('/') {
        path.take(1 + path.skip(1).index_of_first('/')->0)
    } else {
        path
    }
}

/// Where the first segment ends.
proof fn lemma_first_segment_end(path: Seq<char>, end: int)
    requires
        1 <= end < path.len(),
        path[0] <= '\u{7f}',
        path[end] == '/',
        forall|j: int| 1 <= j < end ==> path[j] != '/',
    ensures
        first_segment(path) == path.take(end),
{
    let rest = path.skip(1);
    assert(rest[end - 1] == '/');
    rest.index_of_first_ensures('/');
    let found = rest.index_of_first('/')->0;
    assert(path[1 + found] == '/');
    if found > end - 1 {
        assert(rest[end - 1] != '/');
    }
}

/// The first segment of a path is a prefix of the path.
pub proof fn law_first_segment_is_prefix(path: Seq<char>)
    ensures
        first_segment(path).is_prefix_of(path),
{
    path.skip(1).index_of_first_ensures('/');
}

/// The first segment of a path is its own first segment.
pub proof fn law_first_segment_is_idempotent(path: Seq<char>)
    ensures
        first_segment(first_segment(path)) == first_segment(path),
{
    let rest = path.skip(1);
    rest.index_of_first_ensures('/');
    let segment = first_segment(path);
    if path.len() > 0 && path[0] <= '\u{7f}' && rest.contains('/') {
        if segment.skip(1).contains('/') {
            let j = choose|j: int| 0 <= j < segment.skip(1).len() && segment.skip(1)[j] == '/';
            assert(rest[j] == '/');
        }
    }
}

/// Nothing after the second slash of a path shows in its first segment: the
/// first segment of `/name/rest` is `/name`, whatever `rest` is.
pub proof fn law_first_segment_hides_the_rest(name: Seq<char>, rest: Seq<char>)
    requires
        !name.contains('/'),
    ensures
        first_segment(seq!['/'] + name + seq!['/'] + rest) == seq!['/'] + name,
{
    let path = seq!['/'] + name + seq!['/'] + rest;
    let segment = seq!['/'] + name;
    assert forall|j: int| 1 <= j < segment.len() implies path[j] != '/' by {
        assert(path[j] == name[j - 1]);
    }
    lemma_first_segment_end(path, segment.len() as int);
    assert(segment =~= path.take(segment.len() as int));
}

/// Bytes without a slash decode to characters without a slash.
proof fn lemma_no_slash_byte(bytes: Seq<u8>)
    requires
        valid_utf8(bytes),
        forall|i: int| 0 <= i < bytes.len() ==> bytes[i] != 0x2f,
    ensures
        !decode_utf8(bytes).contains('/'),
    decreases bytes.len(),
{
    if bytes.len() > 0 {
        let head = decode_first_scalar(bytes) as char;
        let rest = pop_first_scalar(bytes);
        lemma_no_slash_byte(rest);
        decode_utf8_first_scalar(bytes);
        if head == '/' {
            assert((0x2fu32 & 0x7f) as u8 == 0x2f) by (bit_vector);
            assert(take_first_scalar(bytes)[0] == bytes[0]);
        }
        assert(decode_utf8(bytes) =~= seq![head] + decode_utf8(rest));
        assert forall|k: int| 0 <= k < decode_utf8(bytes).len() implies decode_utf8(bytes)[k]
            != '/' by {
            if k > 0 {
                assert(decode_utf8(bytes)[k] == decode_utf8(rest)[k - 1]);
            }
        }
    }
}

/// An ASCII character is encoded in one byte, and no other character is.
proof fn lemma_ascii_is_one_byte(c: char)
    ensures
        has_width_1_encoding(c as u32) <==> c <= '\u{7f}',
{
}

/// Splitting a text after a one-byte leading character splits off that character.
proof fn lemma_one_byte_head(chars: Seq<char>, n: int)
    requires
        chars.len() > 0,
        chars[0] <= '\u{7f}',
        1 <= n <= encode_utf8(chars).len(),
        is_char_boundary(encode_utf8(chars), n),
    ensures
        valid_utf8(encode_utf8(chars).subrange(1, n)),
        decode_utf8(encode_utf8(chars).subrange(0, n)) == seq![chars[0]] + decode_utf8(
            encode_utf8(chars).subrange(1, n),
        ),
{
    let bytes = encode_utf8(chars);
    encode_utf8_valid_utf8(chars);
    encode_utf8_first_scalar(chars);
    let prefix = bytes.subrange(0, n);
    valid_utf8_split(bytes, n);
    lemma_ascii_is_one_byte(chars[0]);
    assert(has_width_1_encoding(chars[0] as u32));
    assert(encode_scalar(chars[0] as u32).len() == 1);
    assert(prefix[0] == bytes[0]);
    assert(pop_first_scalar(prefix) =~= bytes.subrange(1, n));
    assert(decode_first_scalar(prefix) == decode_first_scalar(bytes));
    char_u32_cast(chars[0], decode_first_scalar(bytes));
}

/// Truncates a request path to its first segment, which identifies the endpoint
/// without the user-specific parameters that follow.
pub fn first_path_segment(path: &str) -> (segment: &str)
    ensures
        segment@ == first_segment(path@),
{
    let bytes = path.as_bytes();
    proof {
        encode_utf8_valid_utf8(path@);
        encode_utf8_decode_utf8(path@);
    }
    if bytes.len() == 0 {
        proof {
            if path@.len() > 0 {
                encode_utf8_first_scalar(path@);
            }
        }
        return path;
    }
    proof {
        assert(path@.len() > 0);
        encode_utf8_first_scalar(path@);
    }
    if bytes[0] > 0x7f {
        assert(path@[0] > '\u{7f}');
        return path;
    }
    assert(path@[0] <= '\u{7f}') by {
        let b = bytes@[0];
        assert((b & 0x7f) as u32 <= 0x7f) by (bit_vector);
    }
    let mut end: usize = 1;
    while end < bytes.len() && bytes[end] != 0x2f
        invariant
            1 <= end <= bytes@.len(),
            forall|i: int| 1 <= i < end ==> bytes@[i] != 0x2f,
        decreases bytes.len() - end,
    {
        end = end + 1;
    }
    proof {
        if end < bytes.len() {
            is_char_boundary_iff_not_is_continuation_byte(bytes@, end as int);
        } else {
            is_char_boundary_start_end_of_seq(bytes@);
        }
        lemma_one_byte_head(path@, end as int);
        lemma_no_slash_byte(bytes@.subrange(1, end as int));
        decode_utf8_split(bytes@, end as int);
    }
    let ghost prefix = decode_utf8(bytes@.subrange(0, end as int));
    let ghost middle = decode_utf8(bytes@.subrange(1, end as int));
    if end == bytes.len() {
        proof {
            assert(bytes@.subrange(0, end as int) =~= bytes@);
            assert(path@.skip(1) =~= middle);
        }
        return path;
    }
    let (segment, _) = path.split_at(end);
    proof {
        encode_utf8_decode_utf8(segment@);
        assert(segment@ == prefix);
        let tail = bytes@.subrange(end as int, bytes@.len() as int);
        valid_utf8_split(bytes@, end as int);
        assert(tail[0] == 0x2f);
        assert((0x2fu8 & 0x7f) as u32 == 0x2f) by (bit_vector);
        assert(decode_utf8(tail)[0] == '/');
        assert(path@ =~= prefix + decode_utf8(tail));
        assert(path@[prefix.len() as int] == '/');
        assert forall|j: int| 1 <= j < prefix.len() implies path@[j] != '/' by {
            assert(path@[j] == prefix[j] && prefix[j] == middle[j - 1]);
        }
        lemma_first_segment_end(path@, prefix.len() as int);
        assert(segment@ =~= path@.take(prefix.len() as int));
    }
    segment
}

/// What the first segment of a path is, from the path alone. It begins where the
/// path begins. Behind the leading character it has no slash, and it ends at a
/// slash of the path or with the path. Only a path whose leading character is
/// not ASCII is kept whole, whatever slashes it has.
pub proof fn law_first_segment_ends_at_a_slash(path: Seq<char>)
    ensures
        first_segment(path).len() <= path.len(),
        forall|i: int|
            0 <= i < first_segment(path).len() ==> #[trigger] first_segment(path)[i] == path[i],
        path.len() > 0 && path[0] > '\u{7f}' ==> first_segment(path) == path,
        path.len() > 0 && path[0] <= '\u{7f}' ==> first_segment(path).len() > 0,
        path.len() > 0 && path[0] <= '\u{7f}' ==> forall|i: int|
            1 <= i < first_segment(path).len() ==> #[trigger] path[i] != '/',
        first_segment(path).len() < path.len() ==> path[first_segment(path).len() as int] == '/',
{
    let rest = path.skip(1);
    rest.index_of_first_ensures('/');
    if path.len() > 0 && path[0] <= '\u{7f}' {
        assert forall|i: int| 1 <= i < first_segment(path).len() implies #[trigger] path[i]
            != '/' by {
            assert(rest[i - 1] == path[i]);
        }
        if rest.contains('/') {
            assert(path[1 + rest.index_of_first('/')->0] == '/');
        }
    }
}

} // verus!
