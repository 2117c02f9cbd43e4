//! The broker topology contract shared by coordinator and workers.
//!
//! Three durable exchanges carry the protocol: a direct secrets exchange
//! for key sync, routed to exactly one worker per message; a fan-out
//! decryptions exchange that copies every signed request to every worker;
//! and a direct partials exchange on which workers publish their shares
//! for the coordinator's service queue. Queues are durable and
//! client-named; queues must be declared and bound before anything is
//! published to them.

use vstd::prelude::*;
use vstd::string::StringExecFns;

verus! {

/// The decimal digits of `n`, most significant first, without leading
/// zeros (the single digit `0` for zero).
pub open spec fn spec_decimal(n: nat) -> Seq<char>
    decreases n,
{
    if n < 10 {
        seq![spec_digit_char(n)]
    } else {
        spec_decimal(n / 10).push(spec_digit_char(n % 10))
    }
}

/// The character for one decimal digit.
pub open spec fn spec_digit_char(d: nat) -> char
    recommends
        d < 10,
{
    if d == 0 {
        '0'
    } else if d == 1 {
        '1'
    } else if d == 2 {
        '2'
    } else if d == 3 {
        '3'
    } else if d == 4 {
        '4'
    } else if d == 5 {
        '5'
    } else if d == 6 {
        '6'
    } else if d == 7 {
        '7'
    } else if d == 8 {
        '8'
    } else {
        '9'
    }
}

fn push_digit(out: &mut String, d: u64)
    requires
        d < 10,
    ensures
        final(out)@ == old(out)@ + seq![spec_digit_char(d as nat)],
{
    let s: &str = if d == 0 {
        "0"
    } else if d == 1 {
        "1"
    } else if d == 2 {
        "2"
    } else if d == 3 {
        "3"
    } else if d == 4 {
        "4"
    } else if d == 5 {
        "5"
    } else if d == 6 {
        "6"
    } else if d == 7 {
        "7"
    } else if d == 8 {
        "8"
    } else {
        "9"
    };
    proof {
        reveal_strlit("0");
        reveal_strlit("1");
        reveal_strlit("2");
        reveal_strlit("3");
        reveal_strlit("4");
        reveal_strlit("5");
        reveal_strlit("6");
        reveal_strlit("7");
        reveal_strlit("8");
        reveal_strlit("9");
        assert(s@ =~= seq![spec_digit_char(d as nat)]);
    }
    out.append(s);
}

fn push_decimal(out: &mut String, n: u64)
    ensures
        final(out)@ == old(out)@ + spec_decimal(n as nat),
    decreases n,
{
    if n >= 10 {
        push_decimal(out, n / 10);
    }
    push_digit(out, n % 10);
    proof {
        if n >= 10 {
            assert(old(out)@ + spec_decimal((n / 10) as nat) + seq![
                spec_digit_char((n % 10) as nat),
            ] =~= old(out)@ + spec_decimal(n as nat));
        } else {
            assert(old(out)@ + seq![spec_digit_char(n as nat)] =~= old(out)@ + spec_decimal(
                n as nat,
            ));
        }
    }
}

/// The decimal rendering of `n`.
pub fn decimal_string(n: u64) -> (r: String)
    ensures
        r@ == spec_decimal(n as nat),
{
    let mut out = String::new();
    push_decimal(&mut out, n);
    proof {
        assert(Seq::<char>::empty() + spec_decimal(n as nat) =~= spec_decimal(n as nat));
    }
    out
}

/// The direct exchange on which the coordinator publishes key-sync
/// messages, one routing key per worker.
pub fn secrets_exchange() -> (r: &'static str)
    ensures
        r@ == "secrets_exchange"@,
{
    "secrets_exchange"
}

/// The fan-out exchange on which the coordinator publishes signed
/// decryption requests to every worker.
pub fn decryptions_exchange() -> (r: &'static str)
    ensures
        r@ == "decryptions_exchange"@,
{
    "decryptions_exchange"
}

/// The direct exchange on which workers publish partial decryptions.
pub fn partials_exchange() -> (r: &'static str)
    ensures
        r@ == "partials_exchange"@,
{
    "partials_exchange"
}

/// The routing key that both sides use on the decryptions and partials
/// exchanges.
pub fn wildcard_routing_key() -> (r: &'static str)
    ensures
        r@ == "*"@,
{
    "*"
}

/// The coordinator's own queue, bound to the partials exchange.
pub fn service_queue_name() -> (r: &'static str)
    ensures
        r@ == "decryption_service"@,
{
    "decryption_service"
}

/// The reply queue for one decryption call: `decryption_service_<call>`.
/// Each call gets its own queue, so partial decryptions of concurrent
/// calls cannot be delivered to one another's consumers.
pub fn service_reply_queue_name(call: u64) -> (r: String)
    ensures
        r@ == "decryption_service_"@ + spec_decimal(call as nat),
{
    let mut out = String::from_str("decryption_service_");
    push_decimal(&mut out, call);
    out
}

/// The routing key on the secrets exchange that selects exactly worker
/// `id`: `server_<id>_secret`.
pub fn secret_routing_key(id: u64) -> (r: String)
    ensures
        r@ == "server_"@ + spec_decimal(id as nat) + "_secret"@,
{
    let mut out = String::from_str("server_");
    push_decimal(&mut out, id);
    out.append("_secret");
    out
}

/// The name of worker `id`'s queue: `decryption_server_<id>`.
pub fn worker_queue_name(id: u64) -> (r: String)
    ensures
        r@ == "decryption_server_"@ + spec_decimal(id as nat),
{
    let mut out = String::from_str("decryption_server_");
    push_decimal(&mut out, id);
    out
}

proof fn lemma_decimal_nonempty(n: nat)
    ensures
        spec_decimal(n).len() >= 1,
    decreases n,
{
    if n >= 10 {
        lemma_decimal_nonempty(n / 10);
    }
}

proof fn lemma_decimal_injective(a: nat, b: nat)
    requires
        spec_decimal(a) == spec_decimal(b),
    ensures
        a == b,
    decreases a,
{
    lemma_decimal_nonempty(a);
    lemma_decimal_nonempty(b);
    if a < 10 && b < 10 {
        assert(seq![spec_digit_char(a)][0] == spec_digit_char(a));
        assert(seq![spec_digit_char(b)][0] == spec_digit_char(b));
        assert(spec_digit_char(a) == spec_digit_char(b));
        assert(a == b);
    } else if a < 10 {
        lemma_decimal_nonempty(b / 10);
        assert(spec_decimal(b).len() >= 2);
    } else if b < 10 {
        lemma_decimal_nonempty(a / 10);
        assert(spec_decimal(a).len() >= 2);
    } else {
        assert(spec_decimal(a).drop_last() =~= spec_decimal(a / 10));
        assert(spec_decimal(b).drop_last() =~= spec_decimal(b / 10));
        lemma_decimal_injective(a / 10, b / 10);
        assert(spec_decimal(a).last() == spec_digit_char(a % 10));
        assert(spec_decimal(b).last() == spec_digit_char(b % 10));
        assert(spec_digit_char(a % 10) == spec_digit_char(b % 10));
        assert(a % 10 == b % 10);
        assert(a == (a / 10) * 10 + a % 10);
        assert(b == (b / 10) * 10 + b % 10);
        assert(a == b);
    }
}

/// Distinct worker ids get distinct routing keys on the secrets exchange:
/// the key `server_<id>_secret` selects exactly one worker, so each
/// worker receives exactly its own share.
pub proof fn lemma_secret_routing_keys_distinct(a: u64, b: u64)
    requires
        a != b,
    ensures
        "server_"@ + spec_decimal(a as nat) + "_secret"@ != "server_"@ + spec_decimal(
            b as nat,
        ) + "_secret"@,
{
    let da = spec_decimal(a as nat);
    let db = spec_decimal(b as nat);
    let ka = "server_"@ + da + "_secret"@;
    let kb = "server_"@ + db + "_secret"@;
    reveal_strlit("server_");
    reveal_strlit("_secret");
    if ka == kb {
        assert(da.len() == db.len()) by {
            assert(ka.len() == "server_"@.len() + da.len() + "_secret"@.len());
            assert(kb.len() == "server_"@.len() + db.len() + "_secret"@.len());
        }
        let n = "server_"@.len() as int;
        assert(ka.subrange(n, n + da.len() as int) =~= da);
        assert(kb.subrange(n, n + db.len() as int) =~= db);
        lemma_decimal_injective(a as nat, b as nat);
    }
}

} // verus!
