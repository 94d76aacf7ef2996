//! The cache of baselines: its key is a digest of all that matters, written out in full.

use vstd::prelude::*;
use crate::fs_layout::BinaryFsLayout;
use crate::render::cache;

verus! {

/// A byte that is no carriage return.
pub open spec fn counts(b: u8) -> bool {
    b != 13u8
}

proof fn lemma_without_cr(bytes: Seq<u8>)
    ensures
        cache::without_cr(bytes) == bytes.filter(|b: u8| counts(b)),
    decreases bytes.len(),
{
    reveal(Seq::filter);
    if bytes.len() > 0 {
        lemma_without_cr(bytes.drop_last());
    }
}

/// The key is the digest of the document and of the template with a rule between them:
/// every byte of both counts but the carriage returns.
pub proof fn key_is_the_digest_of_both(yaml: Seq<u8>, template: Seq<u8>)
    ensures
        cache::key_of(yaml, template) == cache::hex(
            cache::sha256_of(
                yaml.filter(|b: u8| counts(b)) + seq![10u8, 45u8, 45u8, 45u8, 10u8]
                    + template.filter(|b: u8| counts(b)),
            ),
        ),
{
    lemma_without_cr(yaml);
    lemma_without_cr(template);
}

/// The number that a hexadecimal digit stands for.
pub open spec fn digit_value(c: char) -> int {
    if '0' <= c && c <= '9' {
        c as int - '0' as int
    } else {
        c as int - 'a' as int + 10
    }
}

/// Every byte stands in the hexadecimal form as its two digits.
pub proof fn hex_stands_for_its_bytes(bytes: Seq<u8>)
    ensures
        cache::hex(bytes).len() == 2 * bytes.len(),
        forall|i: int|
            0 <= i < bytes.len() ==> #[trigger] bytes[i] as int == 16 * digit_value(
                cache::hex(bytes)[2 * i],
            ) + digit_value(cache::hex(bytes)[2 * i + 1]),
    decreases bytes.len(),
{
    if bytes.len() > 0 {
        let before = bytes.drop_last();
        hex_stands_for_its_bytes(before);
        let b = bytes.last() as int;
        assert(0 <= b / 16 < 16 && 0 <= b % 16 < 16 && b == 16 * (b / 16) + b % 16);
        assert(digit_value(cache::hex_digit(b / 16)) == b / 16);
        assert(digit_value(cache::hex_digit(b % 16)) == b % 16);
        let all = cache::hex(bytes);
        assert forall|i: int| 0 <= i < bytes.len() implies #[trigger] bytes[i] as int == 16
            * digit_value(all[2 * i]) + digit_value(all[2 * i + 1]) by {
            if i < before.len() {
                assert(bytes[i] == before[i]);
                assert(all[2 * i] == cache::hex(before)[2 * i]);
                assert(all[2 * i + 1] == cache::hex(before)[2 * i + 1]);
            }
        }
    }
}

/// Two digests that differ have names that differ.
pub proof fn names_tell_digests_apart(a: Seq<u8>, b: Seq<u8>)
    requires
        cache::hex(a) == cache::hex(b),
    ensures
        a == b,
{
    hex_stands_for_its_bytes(a);
    hex_stands_for_its_bytes(b);
    assert(a =~= b);
}

/// A cached baseline and its temporary file stand in the cache directory next to the
/// program, under the key of the document.
pub proof fn cached_baselines_stand_under_their_key(layout: BinaryFsLayout, yaml: Seq<u8>)
    ensures
        ({
            let name = "baseline-"@ + cache::key_of(yaml, cache::template_bytes()) + ".md"@;
            &&& cache::cache_file(layout, yaml).root == layout.binary_dir@
            &&& cache::cache_file(layout, yaml).names == seq!["cache"@, name]
            &&& cache::temporary_file(layout, yaml).root == layout.binary_dir@
            &&& cache::temporary_file(layout, yaml).names == seq!["cache"@, name + ".tmp"@]
        }),
{
}

} // verus!
