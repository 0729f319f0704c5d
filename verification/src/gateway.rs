use vstd::prelude::*;
use vstd::string::*;
use vstd::utf8::encode_utf8;
use crate::access::RejectionReason;
use crate::issuance::issue;
use crate::json::{
    bytes_eq, push_bool, push_byte_array, push_decimal, push_json_str, push_lit, spec_bool_json,
    spec_byte_array, spec_decimal, spec_json_string,
};
use crate::ledger::{Counter, ServerCounts, spec_counter_add, spec_counter_value};
use crate::store::{CredentialStore, store_contents};
use crate::tier::{AccessLevel, spec_access_byte, spec_level_name, spec_runtime_limits};

verus! {

/// One step snapshot of an engine run, passed through verbatim: a
/// per-step error is data, not a gateway fault.
pub struct RuntimeSnapshot {
    pub memory: Vec<u8>,
    pub memory_pointer: u64,
    pub instruction_pointer: u64,
    pub input_pointer: u64,
    pub output: Vec<u8>,
    pub is_error: bool,
    pub message: Option<String>,
}

/// What one engine run returns: the ordered execution trace, the final
/// output bytes, the instruction count and the elapsed time in
/// nanoseconds. The engine itself is an external collaborator; the
/// gateway only consumes this value.
pub struct RuntimeProduct {
    pub snapshots: Vec<RuntimeSnapshot>,
    pub output: Vec<u8>,
    pub executions: u64,
    pub time: u64,
}

/// The JSON value a message field serializes to: a string, or `null` when
/// the step carries none.
pub open spec fn spec_message_json(m: Option<String>) -> Seq<u8> {
    match m {
        None => ("null").spec_bytes(),
        Some(s) => spec_json_string(encode_utf8(s@)),
    }
}

/// The JSON object one step snapshot serializes to.
pub open spec fn spec_snapshot_json(s: RuntimeSnapshot) -> Seq<u8> {
    ("{\"memory\":").spec_bytes() + spec_byte_array(s.memory@) + (",\"memory_pointer\":").spec_bytes()
        + spec_decimal(s.memory_pointer as nat) + (",\"instruction_pointer\":").spec_bytes()
        + spec_decimal(s.instruction_pointer as nat) + (",\"input_pointer\":").spec_bytes()
        + spec_decimal(s.input_pointer as nat) + (",\"output\":").spec_bytes() + spec_byte_array(
        s.output@,
    ) + (",\"is_error\":").spec_bytes() + spec_bool_json(s.is_error) + (",\"message\":").spec_bytes()
        + spec_message_json(s.message) + ("}").spec_bytes()
}

/// The comma-separated JSON objects of a trace.
pub open spec fn spec_snapshots_json(s: Seq<RuntimeSnapshot>) -> Seq<u8>
    decreases s.len(),
{
    if s.len() == 0 {
        Seq::empty()
    } else if s.len() == 1 {
        spec_snapshot_json(s[0])
    } else {
        spec_snapshots_json(s.drop_last()) + seq![44u8] + spec_snapshot_json(s.last())
    }
}

/// The JSON object an engine product serializes to.
pub open spec fn spec_product_json(p: RuntimeProduct) -> Seq<u8> {
    ("{\"snapshots\":[").spec_bytes() + spec_snapshots_json(p.snapshots@) + ("],\"output\":").spec_bytes()
        + spec_byte_array(p.output@) + (",\"executions\":").spec_bytes() + spec_decimal(
        p.executions as nat,
    ) + (",\"time\":").spec_bytes() + spec_decimal(p.time as nat) + ("}").spec_bytes()
}

/// Append the JSON object of one step snapshot.
#[verifier::rlimit(100)]
pub fn push_snapshot_json(out: &mut Vec<u8>, s: &RuntimeSnapshot)
    ensures
        final(out)@ == old(out)@ + spec_snapshot_json(*s),
{
    push_lit(out, "{\"memory\":");
    push_byte_array(out, &s.memory);
    push_lit(out, ",\"memory_pointer\":");
    push_decimal(out, s.memory_pointer);
    push_lit(out, ",\"instruction_pointer\":");
    push_decimal(out, s.instruction_pointer);
    push_lit(out, ",\"input_pointer\":");
    push_decimal(out, s.input_pointer);
    let ghost mid = out@;
    push_lit(out, ",\"output\":");
    push_byte_array(out, &s.output);
    push_lit(out, ",\"is_error\":");
    push_bool(out, s.is_error);
    push_lit(out, ",\"message\":");
    match &s.message {
        None => push_lit(out, "null"),
        Some(m) => push_json_str(out, m.as_str()),
    }
    push_lit(out, "}");
    proof {
        let first = ("{\"memory\":").spec_bytes() + spec_byte_array(s.memory@) + (
        ",\"memory_pointer\":").spec_bytes() + spec_decimal(s.memory_pointer as nat) + (
        ",\"instruction_pointer\":").spec_bytes() + spec_decimal(s.instruction_pointer as nat) + (
        ",\"input_pointer\":").spec_bytes() + spec_decimal(s.input_pointer as nat);
        let second = (",\"output\":").spec_bytes() + spec_byte_array(s.output@) + (
        ",\"is_error\":").spec_bytes() + spec_bool_json(s.is_error) + (",\"message\":").spec_bytes()
            + spec_message_json(s.message) + ("}").spec_bytes();
        assert(mid =~= old(out)@ + first);
        assert(out@ =~= mid + second);
        assert(spec_snapshot_json(*s) =~= first + second);
        assert(out@ =~= old(out)@ + (first + second));
        assert(out@ == old(out)@ + spec_snapshot_json(*s));
    }
}

/// Serialize an engine product for the transport layer, byte for byte as
/// `spec_product_json` describes: the trace verbatim, then the output,
/// the instruction count and the elapsed time.
pub fn product_to_response(product: &RuntimeProduct) -> (r: Vec<u8>)
    ensures
        r@ == spec_product_json(*product),
{
    let mut out: Vec<u8> = Vec::new();
    push_lit(&mut out, "{\"snapshots\":[");
    proof {
        assert(product.snapshots@.take(0) =~= Seq::<RuntimeSnapshot>::empty());
        assert(out@ =~= ("{\"snapshots\":[").spec_bytes() + spec_snapshots_json(
            product.snapshots@.take(0),
        ));
    }
    let n = product.snapshots.len();
    let mut i: usize = 0;
    while i < n
        invariant
            n == product.snapshots@.len(),
            i <= n,
            out@ == ("{\"snapshots\":[").spec_bytes() + spec_snapshots_json(
                product.snapshots@.take(i as int),
            ),
        decreases n - i,
    {
        if i > 0 {
            out.push(44);
        }
        push_snapshot_json(&mut out, &product.snapshots[i]);
        proof {
            let t = product.snapshots@.take(i as int + 1);
            assert(t.len() == i + 1);
            if i == 0 {
                assert(t[0] == product.snapshots@[0]);
                assert(spec_snapshots_json(t) == spec_snapshot_json(product.snapshots@[0]));
            } else {
                assert(t.drop_last() =~= product.snapshots@.take(i as int));
                assert(t.last() == product.snapshots@[i as int]);
                assert(spec_snapshots_json(t) == spec_snapshots_json(
                    product.snapshots@.take(i as int),
                ) + seq![44u8] + spec_snapshot_json(product.snapshots@[i as int]));
            }
            assert(out@ =~= ("{\"snapshots\":[").spec_bytes() + spec_snapshots_json(t));
        }
        i += 1;
    }
    proof {
        assert(product.snapshots@.take(n as int) =~= product.snapshots@);
    }
    push_lit(&mut out, "],\"output\":");
    push_byte_array(&mut out, &product.output);
    push_lit(&mut out, ",\"executions\":");
    push_decimal(&mut out, product.executions);
    push_lit(&mut out, ",\"time\":");
    push_decimal(&mut out, product.time);
    push_lit(&mut out, "}");
    proof {
        assert(out@ =~= spec_product_json(*product));
    }
    out
}

/// Serve one execution request whose engine run has completed: serialize
/// the product and update the usage ledger — instruction count and
/// elapsed time unconditionally, then requests served and the byte length
/// of the serialized response. The engine invocation itself, with the
/// ceilings of `AccessLevel::get_runtime_limits`, stands with the caller;
/// this layer trusts the engine's termination contract.
#[verifier::rlimit(100)]
pub fn handle_interpretation(product: &RuntimeProduct, server_counts: &mut ServerCounts) -> (r: Vec<
    u8,
>)
    ensures
        r@ == spec_product_json(*product),
        final(server_counts).instructions == spec_counter_add(
            old(server_counts).instructions,
            product.executions,
        ),
        final(server_counts).runtime_ns == spec_counter_add(
            old(server_counts).runtime_ns,
            product.time,
        ),
        final(server_counts).requests_fufilled == spec_counter_add(
            old(server_counts).requests_fufilled,
            1,
        ),
        final(server_counts).bytes_returned == spec_counter_add(
            old(server_counts).bytes_returned,
            spec_product_json(*product).len() as u64,
        ),
        final(server_counts).status_hits == old(server_counts).status_hits,
{
    server_counts.increment(Counter::Instructions, product.executions);
    let ghost s1 = *server_counts;
    server_counts.increment(Counter::RuntimeNs, product.time);
    let ghost s2 = *server_counts;
    let response = product_to_response(product);
    server_counts.increment(Counter::RequestsFufilled, 1);
    let ghost s3 = *server_counts;
    server_counts.increment(Counter::BytesReturned, response.len() as u64);
    proof {
        let s0 = *old(server_counts);
        let s4 = *server_counts;
        assert(spec_counter_value(s4, Counter::Instructions) == spec_counter_value(
            s3,
            Counter::Instructions,
        ));
        assert(spec_counter_value(s3, Counter::Instructions) == spec_counter_value(
            s2,
            Counter::Instructions,
        ));
        assert(spec_counter_value(s2, Counter::Instructions) == spec_counter_value(
            s1,
            Counter::Instructions,
        ));
        assert(spec_counter_value(s4, Counter::RuntimeNs) == spec_counter_value(
            s3,
            Counter::RuntimeNs,
        ));
        assert(spec_counter_value(s3, Counter::RuntimeNs) == spec_counter_value(
            s2,
            Counter::RuntimeNs,
        ));
        assert(spec_counter_value(s4, Counter::RequestsFufilled) == spec_counter_value(
            s3,
            Counter::RequestsFufilled,
        ));
        assert(spec_counter_value(s3, Counter::RequestsFufilled) == spec_counter_add(
            spec_counter_value(s2, Counter::RequestsFufilled),
            1,
        ));
        assert(spec_counter_value(s2, Counter::RequestsFufilled) == spec_counter_value(
            s1,
            Counter::RequestsFufilled,
        ));
        assert(spec_counter_value(s1, Counter::RequestsFufilled) == spec_counter_value(
            s0,
            Counter::RequestsFufilled,
        ));
        assert(spec_counter_value(s3, Counter::BytesReturned) == spec_counter_value(
            s2,
            Counter::BytesReturned,
        ));
        assert(spec_counter_value(s2, Counter::BytesReturned) == spec_counter_value(
            s1,
            Counter::BytesReturned,
        ));
        assert(spec_counter_value(s1, Counter::BytesReturned) == spec_counter_value(
            s0,
            Counter::BytesReturned,
        ));
        assert(spec_counter_value(s4, Counter::StatusHits) == spec_counter_value(
            s3,
            Counter::StatusHits,
        ));
        assert(spec_counter_value(s3, Counter::StatusHits) == spec_counter_value(
            s2,
            Counter::StatusHits,
        ));
        assert(spec_counter_value(s2, Counter::StatusHits) == spec_counter_value(
            s1,
            Counter::StatusHits,
        ));
        assert(spec_counter_value(s1, Counter::StatusHits) == spec_counter_value(
            s0,
            Counter::StatusHits,
        ));
        assert(spec_counter_value(s1, Counter::RuntimeNs) == spec_counter_value(
            s0,
            Counter::RuntimeNs,
        ));
    }
    response
}

/// The plain-text status page: every aggregate counter, with the engine
/// runtime shown in milliseconds with two decimal places.
pub open spec fn spec_status_text(
    requests: u64,
    instructions: u64,
    runtime_ns: u64,
    bytes_returned: u64,
    hits: u64,
) -> Seq<u8> {
    ("brainfork API status\n\nfufilled ").spec_bytes() + spec_decimal(requests as nat) + (
    " requests\nexecuted ").spec_bytes() + spec_decimal(instructions as nat) + (
    " instructions\nengine runtime: ").spec_bytes() + spec_decimal((runtime_ns / 1000000) as nat)
        + (".").spec_bytes() + spec_two_digits(((runtime_ns / 10000) % 100) as nat) + (
    " ms\nreturned ").spec_bytes() + spec_decimal(bytes_returned as nat) + (
    " chars\n\nrendered this page ").spec_bytes() + spec_decimal(hits as nat) + (
    " times\n").spec_bytes()
}

/// Two decimal digits, zero-padded, of a value below one hundred.
pub open spec fn spec_two_digits(n: nat) -> Seq<u8> {
    seq![(48 + n / 10) as u8, (48 + n % 10) as u8]
}

/// Append two zero-padded decimal digits.
fn push_two_digits(out: &mut Vec<u8>, n: u64)
    requires
        n < 100,
    ensures
        final(out)@ == old(out)@ + spec_two_digits(n as nat),
{
    out.push(48 + (n / 10) as u8);
    out.push(48 + (n % 10) as u8);
    proof {
        assert(out@ =~= old(out)@ + spec_two_digits(n as nat));
    }
}

/// Serve a status query: count the hit, then render every counter as
/// plain text. The page shows the other counters as they stood before the
/// call and the status-hit counter including this very hit.
#[verifier::rlimit(100)]
pub fn handle_api_status(server_counts: &mut ServerCounts) -> (r: Vec<u8>)
    ensures
        final(server_counts).status_hits == spec_counter_add(old(server_counts).status_hits, 1),
        final(server_counts).requests_fufilled == old(server_counts).requests_fufilled,
        final(server_counts).instructions == old(server_counts).instructions,
        final(server_counts).runtime_ns == old(server_counts).runtime_ns,
        final(server_counts).bytes_returned == old(server_counts).bytes_returned,
        r@ == spec_status_text(
            old(server_counts).requests_fufilled,
            old(server_counts).instructions,
            old(server_counts).runtime_ns,
            old(server_counts).bytes_returned,
            final(server_counts).status_hits,
        ),
{
    let hits = server_counts.increment(Counter::StatusHits, 1);
    proof {
        assert(spec_counter_value(*server_counts, Counter::RequestsFufilled) == spec_counter_value(
            *old(server_counts),
            Counter::RequestsFufilled,
        ));
        assert(spec_counter_value(*server_counts, Counter::Instructions) == spec_counter_value(
            *old(server_counts),
            Counter::Instructions,
        ));
        assert(spec_counter_value(*server_counts, Counter::RuntimeNs) == spec_counter_value(
            *old(server_counts),
            Counter::RuntimeNs,
        ));
        assert(spec_counter_value(*server_counts, Counter::BytesReturned) == spec_counter_value(
            *old(server_counts),
            Counter::BytesReturned,
        ));
    }
    let (requests, instructions, runtime_ns, bytes_returned, _) = server_counts.snapshot();
    let mut out: Vec<u8> = Vec::new();
    push_lit(&mut out, "brainfork API status\n\nfufilled ");
    push_decimal(&mut out, requests);
    push_lit(&mut out, " requests\nexecuted ");
    push_decimal(&mut out, instructions);
    push_lit(&mut out, " instructions\nengine runtime: ");
    push_decimal(&mut out, runtime_ns / 1000000);
    push_lit(&mut out, ".");
    push_two_digits(&mut out, (runtime_ns / 10000) % 100);
    push_lit(&mut out, " ms\nreturned ");
    push_decimal(&mut out, bytes_returned);
    push_lit(&mut out, " chars\n\nrendered this page ");
    push_decimal(&mut out, hits);
    push_lit(&mut out, " times\n");
    proof {
        assert(out@ =~= spec_status_text(
            old(server_counts).requests_fufilled,
            old(server_counts).instructions,
            old(server_counts).runtime_ns,
            old(server_counts).bytes_returned,
            final(server_counts).status_hits,
        ));
    }
    out
}

/// The JSON object a limits query serializes to.
pub open spec fn spec_limits_json(level: AccessLevel) -> Seq<u8> {
    ("{\"access_level\":").spec_bytes() + spec_json_string(encode_utf8(spec_level_name(level)))
        + (",\"execution_limit\":").spec_bytes() + spec_decimal(spec_runtime_limits(level).0 as nat)
        + (",\"memory_limit\":").spec_bytes() + spec_decimal(spec_runtime_limits(level).1 as nat)
        + ("}").spec_bytes()
}

/// Serve a limits query: the caller's resolved tier and the execution and
/// memory ceilings that tier is granted.
pub fn handle_limits(access_level: &AccessLevel) -> (r: Vec<u8>)
    ensures
        r@ == spec_limits_json(*access_level),
{
    let mut out: Vec<u8> = Vec::new();
    push_lit(&mut out, "{\"access_level\":");
    push_json_str(&mut out, access_level.name());
    let (execution_limit, memory_limit) = access_level.get_runtime_limits();
    push_lit(&mut out, ",\"execution_limit\":");
    push_decimal(&mut out, execution_limit as u64);
    push_lit(&mut out, ",\"memory_limit\":");
    push_decimal(&mut out, memory_limit as u64);
    push_lit(&mut out, "}");
    proof {
        assert(out@ =~= spec_limits_json(*access_level));
    }
    out
}

/// The JSON object reporting an issuance rejection or failure.
pub open spec fn spec_error_json(message: Seq<char>) -> Seq<u8> {
    ("{\"error_message\":").spec_bytes() + spec_json_string(encode_utf8(message)) + ("}").spec_bytes()
}

/// The JSON object disclosing a freshly issued credential.
pub open spec fn spec_key_json(key: Seq<char>) -> Seq<u8> {
    ("{\"key\":").spec_bytes() + spec_json_string(encode_utf8(key)) + ("}").spec_bytes()
}

/// Serialize one error message for the transport layer.
fn error_json(message: &str) -> (r: Vec<u8>)
    ensures
        r@ == spec_error_json(message@),
{
    let mut out: Vec<u8> = Vec::new();
    push_lit(&mut out, "{\"error_message\":");
    push_json_str(&mut out, message);
    push_lit(&mut out, "}");
    proof {
        assert(out@ =~= spec_error_json(message@));
    }
    out
}

/// The tier an access-level string of an issuance request denotes; only
/// the issuable tiers have a name.
pub open spec fn spec_parse_access_request(bytes: Seq<u8>) -> Option<AccessLevel> {
    if bytes == ("developer").spec_bytes() {
        Some(AccessLevel::Developer)
    } else if bytes == ("basic").spec_bytes() {
        Some(AccessLevel::Basic)
    } else {
        None
    }
}

/// Parse the requested access level of an issuance request.
pub fn parse_access_request(s: &str) -> (r: Option<AccessLevel>)
    ensures
        r == spec_parse_access_request(s.spec_bytes()),
{
    let bytes = s.as_bytes_vec();
    let dev = ("developer").as_bytes_vec();
    if bytes_eq(&bytes, &dev) {
        return Some(AccessLevel::Developer);
    }
    let basic = ("basic").as_bytes_vec();
    if bytes_eq(&bytes, &basic) {
        return Some(AccessLevel::Basic);
    }
    None
}

/// Serve an issuance request: only an `Administrator` caller may issue,
/// only the named issuable tiers are accepted, and the response either
/// discloses the fresh credential — the one time it is disclosed — or
/// names the failure. Both rejections leave the store untouched.
pub fn handle_new_authorization(
    store: &mut CredentialStore,
    access_level_requested: &str,
    label: &str,
    caller: AccessLevel,
) -> (r: Vec<u8>)
    ensures
        caller != AccessLevel::Administrator ==> r@ == spec_error_json(
            ("you are not authorized to request this feature")@,
        ) && store_contents(*final(store)) == store_contents(*old(store)),
        caller == AccessLevel::Administrator && spec_parse_access_request(
            access_level_requested.spec_bytes(),
        ) is None ==> r@ == spec_error_json(
            ("unknown 'access_level', expected: {'developer', 'basic'}")@,
        ) && store_contents(*final(store)) == store_contents(*old(store)),
        caller == AccessLevel::Administrator && spec_parse_access_request(
            access_level_requested.spec_bytes(),
        ) is Some ==> (exists|key: Seq<char>|
            #![auto]
            key.len() == 36 && store_contents(*final(store)) == store_contents(*old(store)).insert(
                key,
                spec_access_byte(
                    spec_parse_access_request(access_level_requested.spec_bytes())->Some_0,
                ),
            ) && r@ == spec_key_json(key)) || (r@ == spec_error_json(
            ("failed to insert key into database")@,
        ) && store_contents(*final(store)) == store_contents(*old(store))),
{
    if caller != AccessLevel::Administrator {
        return error_json("you are not authorized to request this feature");
    }
    let requested = match parse_access_request(access_level_requested) {
        Some(level) => level,
        None => {
            return error_json("unknown 'access_level', expected: {'developer', 'basic'}");
        },
    };
    match issue(store, requested, label, caller) {
        Ok(key) => {
            let mut out: Vec<u8> = Vec::new();
            push_lit(&mut out, "{\"key\":");
            push_json_str(&mut out, key.as_str());
            push_lit(&mut out, "}");
            proof {
                assert(out@ =~= spec_key_json(key@));
            }
            out
        },
        Err(_) => error_json("failed to insert key into database"),
    }
}

} // verus!
