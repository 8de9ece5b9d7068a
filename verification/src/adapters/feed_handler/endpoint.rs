//! The address of a combined trade stream.

use vstd::prelude::*;
use vstd::string::StringExecFns;
use crate::text::{lowercase, push_lowercase, texts};

verus! {

/// The name of the trade stream of `symbol`: the symbol in lower case, then
/// `@aggTrade`.
pub open spec fn stream_name(symbol: Seq<char>) -> Seq<char> {
    lowercase(symbol) + "@aggTrade"@
}

/// The stream names of `symbols`, in order, with a `/` between neighbours.
pub open spec fn stream_path(symbols: Seq<Seq<char>>) -> Seq<char>
    decreases symbols.len(),
{
    if symbols.len() == 0 {
        Seq::empty()
    } else if symbols.len() == 1 {
        stream_name(symbols[0])
    } else {
        stream_path(symbols.drop_last()) + "/"@ + stream_name(symbols.last())
    }
}

/// The address of the combined stream of `symbols` at `host`:
/// `wss://<host>/stream?streams=<name>/<name>/...`.
pub open spec fn stream_url(host: Seq<char>, symbols: Seq<Seq<char>>) -> Seq<char> {
    "wss://"@ + host + "/stream?streams="@ + stream_path(symbols)
}

/// The address of the combined trade stream of `symbols` at `host`.
pub fn combined_stream_url(host: &str, symbols: &Vec<String>) -> (url: String)
    ensures
        url@ == stream_url(host@, texts(symbols@)),
{
    let ghost names = texts(symbols@);
    let mut url: String = String::from_str("wss://");
    url.append(host);
    url.append("/stream?streams=");
    let ghost head = url@;
    let mut i: usize = 0;
    proof {
        assert(names.take(0) =~= Seq::<Seq<char>>::empty());
        assert(head + stream_path(names.take(0)) =~= head);
    }
    while i < symbols.len()
        invariant
            i <= symbols.len(),
            names == texts(symbols@),
            head == "wss://"@ + host@ + "/stream?streams="@,
            url@ == head + stream_path(names.take(i as int)),
        decreases symbols.len() - i,
    {
        let ghost before = url@;
        if i > 0 {
            url.append("/");
        }
        push_lowercase(&mut url, symbols[i].as_str());
        url.append("@aggTrade");
        proof {
            let upto = names.take(i + 1);
            assert(upto.drop_last() =~= names.take(i as int));
            assert(upto.last() == symbols@[i as int]@);
            if i == 0 {
                assert(upto[0] == symbols@[0]@);
                assert(url@ =~= head + stream_name(upto[0]));
            } else {
                assert(url@ =~= head + (stream_path(names.take(i as int)) + "/"@ + stream_name(
                    upto.last(),
                )));
            }
        }
        i = i + 1;
    }
    proof {
        assert(names.take(symbols.len() as int) =~= names);
    }
    url
}

} // verus!
