//! Versioned gossip topics for unsafe block announcements.

use vstd::prelude::*;

verus! {

/// The ASCII character of a decimal digit.
pub open spec fn digit_char(d: nat) -> char {
    if d == 0 { '0' }
    else if d == 1 { '1' }
    else if d == 2 { '2' }
    else if d == 3 { '3' }
    else if d == 4 { '4' }
    else if d == 5 { '5' }
    else if d == 6 { '6' }
    else if d == 7 { '7' }
    else if d == 8 { '8' }
    else { '9' }
}

/// The decimal representation of `n`, without leading zeros.
pub open spec fn decimal(n: nat) -> Seq<char>
    decreases n,
{
    if n < 10 {
        seq![digit_char(n)]
    } else {
        decimal(n / 10).push(digit_char(n % 10))
    }
}

/// The name of the block topic of the given version on a chain:
/// `/optimism/{chain_id}/{version}/blocks`.
pub open spec fn topic_name(chain_id: nat, version: nat) -> Seq<char> {
    "/optimism/"@ + decimal(chain_id) + "/"@ + decimal(version) + "/blocks"@
}

fn digit_str(d: u64) -> (r: &'static str)
    requires
        d < 10,
    ensures
        r@ == seq![digit_char(d as nat)],
{
    proof {
        reveal_strlit("0");
        reveal_strlit("1");
        reveal_strlit("2");
        reveal_strlit("3");
        reveal_strlit("4");
        reveal_strlit("5");
        reveal_strlit("6");
        reveal_strlit("7");
        reveal_strlit("8");
        reveal_strlit("9");
    }
    if d == 0 { "0" }
    else if d == 1 { "1" }
    else if d == 2 { "2" }
    else if d == 3 { "3" }
    else if d == 4 { "4" }
    else if d == 5 { "5" }
    else if d == 6 { "6" }
    else if d == 7 { "7" }
    else if d == 8 { "8" }
    else { "9" }
}

/// Appends the decimal representation of `n` to `s`.
pub(crate) fn append_decimal(s: &mut String, n: u64)
    ensures
        final(s)@ == old(s)@ + decimal(n as nat),
    decreases n,
{
    if n >= 10 {
        append_decimal(s, n / 10);
    }
    s.append(digit_str(n % 10));
    assert(s@ =~= old(s)@ + decimal(n as nat));
}

/// Builds the name of the block topic of `version` on chain `chain_id`.
pub fn block_topic_name(chain_id: u64, version: u64) -> (r: String)
    ensures
        r@ == topic_name(chain_id as nat, version as nat),
{
    let mut s = String::from_str("/optimism/");
    append_decimal(&mut s, chain_id);
    s.append("/");
    append_decimal(&mut s, version);
    s.append("/blocks");
    assert(s@ =~= topic_name(chain_id as nat, version as nat));
    s
}

} // verus!

verus! {

/// The part of a topic name before the version.
pub open spec fn topic_prefix(chain_id: nat) -> Seq<char> {
    "/optimism/"@ + decimal(chain_id) + "/"@
}

proof fn lemma_version_char(chain_id: nat, version: nat)
    requires
        version < 10,
    ensures
        topic_prefix(chain_id).len() < topic_name(chain_id, version).len(),
        topic_name(chain_id, version)[topic_prefix(chain_id).len() as int] == digit_char(version),
{
    let p = topic_prefix(chain_id);
    assert(decimal(version) == seq![digit_char(version)]);
    assert(topic_name(chain_id, version) =~= p + seq![digit_char(version)] + "/blocks"@);
}

/// Block topics of different versions on one chain have different names.
pub proof fn lemma_topic_names_distinct(chain_id: nat, a: nat, b: nat)
    requires
        a < 10,
        b < 10,
        a != b,
    ensures
        topic_name(chain_id, a) != topic_name(chain_id, b),
{
    lemma_version_char(chain_id, a);
    lemma_version_char(chain_id, b);
    let k = topic_prefix(chain_id).len() as int;
    assert(topic_name(chain_id, a)[k] != topic_name(chain_id, b)[k]);
}

} // verus!
