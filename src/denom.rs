use crate::error::{Error, ErrorView};
use crate::types::IbcEndpoint;
use vstd::prelude::*;
use vstd::string::*;

verus! {

/// The positions of the `/` separators in `s`, in increasing order.
pub open spec fn slash_positions(s: Seq<char>) -> Seq<int>
    decreases s.len(),
{
    if s.len() == 0 {
        Seq::empty()
    } else if s.last() == '/' {
        slash_positions(s.drop_last()).push(s.len() - 1)
    } else {
        slash_positions(s.drop_last())
    }
}

/// A voucher denomination splits on `/` into exactly three parts.
pub open spec fn is_voucher(s: Seq<char>) -> bool {
    slash_positions(s).len() == 2
}

/// The first part of a voucher denomination: the port it was minted for.
pub open spec fn voucher_port(s: Seq<char>) -> Seq<char> {
    s.subrange(0, slash_positions(s)[0])
}

/// The second part of a voucher denomination: the channel it was minted for.
pub open spec fn voucher_channel(s: Seq<char>) -> Seq<char> {
    s.subrange(slash_positions(s)[0] + 1, slash_positions(s)[1])
}

/// The third part of a voucher denomination: the denomination on this chain.
pub open spec fn voucher_base(s: Seq<char>) -> Seq<char> {
    s.subrange(slash_positions(s)[1] + 1, s.len() as int)
}

/// The local denomination that a voucher denomination from the endpoint
/// (`port`, `channel`) stands for, or why it stands for none.
pub open spec fn voucher_local_denom(s: Seq<char>, port: Seq<char>, channel: Seq<char>) -> Result<
    Seq<char>,
    ErrorView,
> {
    if !is_voucher(s) {
        Err(ErrorView::NoForeignTokens {  })
    } else if voucher_port(s) != port {
        Err(ErrorView::FromOtherPort { port: voucher_port(s) })
    } else if voucher_channel(s) != channel {
        Err(ErrorView::FromOtherChannel { channel: voucher_channel(s) })
    } else {
        Ok(voucher_base(s))
    }
}

proof fn lemma_slash_positions_step(s: Seq<char>, i: int)
    requires
        0 <= i < s.len(),
    ensures
        slash_positions(s.subrange(0, i + 1)) == if s[i] == '/' {
            slash_positions(s.subrange(0, i)).push(i)
        } else {
            slash_positions(s.subrange(0, i))
        },
{
    assert(s.subrange(0, i + 1).drop_last() =~= s.subrange(0, i));
}

/// Resolves a voucher denomination that arrived from `remote` to the
/// denomination on this chain.
///
/// Only a denomination of the form `<port>/<channel>/<base>`, with exactly
/// two separators, whose port and channel are those of `remote`, names a
/// token that left this chain over that channel; its `<base>` is returned.
pub fn parse_voucher_denom(voucher_denom: &str, remote: &IbcEndpoint) -> (r: Result<String, Error>)
    ensures
        match voucher_local_denom(voucher_denom@, remote.port_id@, remote.channel_id@) {
            Ok(d) => r matches Ok(x) && x@ == d,
            Err(e) => r matches Err(x) && x@ == e,
        },
{
    let ghost s = voucher_denom@;
    let n = voucher_denom.unicode_len();
    let mut slashes: Vec<usize> = Vec::new();
    let mut i: usize = 0;
    while i < n
        invariant
            s == voucher_denom@,
            n == s.len(),
            i <= n,
            slashes@.len() == slash_positions(s.subrange(0, i as int)).len(),
            forall|k: int|
                0 <= k < slashes@.len() ==> slashes@[k] as int == #[trigger] slash_positions(
                    s.subrange(0, i as int),
                )[k],
        decreases n - i,
    {
        proof {
            lemma_slash_positions_step(s, i as int);
        }
        let c = voucher_denom.get_char(i);
        if c == '/' {
            slashes.push(i);
        }
        assert(c == s[i as int]);
        i = i + 1;
    }
    assert(s.subrange(0, n as int) =~= s);
    if slashes.len() != 2 {
        return Err(Error::NoForeignTokens {  });
    }
    proof {
        lemma_slash_positions_bounds(s);
        assert(slashes@[0] as int == slash_positions(s.subrange(0, n as int))[0]);
        assert(slashes@[1] as int == slash_positions(s.subrange(0, n as int))[1]);
    }
    let a = slashes[0];
    let b = slashes[1];
    let port = String::from_str(voucher_denom.substring_char(0, a));
    if port != remote.port_id {
        return Err(Error::FromOtherPort { port });
    }
    let channel = String::from_str(voucher_denom.substring_char(a + 1, b));
    if channel != remote.channel_id {
        return Err(Error::FromOtherChannel { channel });
    }
    Ok(String::from_str(voucher_denom.substring_char(b + 1, n)))
}

proof fn lemma_slash_positions_bounds(s: Seq<char>)
    ensures
        forall|k: int|
            0 <= k < slash_positions(s).len() ==> 0 <= #[trigger] slash_positions(s)[k] < s.len()
                && s[slash_positions(s)[k]] == '/',
        forall|j: int, k: int|
            0 <= j < k < slash_positions(s).len() ==> slash_positions(s)[j] < slash_positions(
                s,
            )[k],
    decreases s.len(),
{
    if s.len() > 0 {
        let t = s.drop_last();
        lemma_slash_positions_bounds(t);
        assert forall|k: int| 0 <= k < slash_positions(t).len() implies t[slash_positions(t)[k]] == s[slash_positions(t)[k]] by {}
    }
}

} // verus!
