//! Properties of the library as a whole, relating its operations.

use vstd::prelude::*;

use crate::data::db::Db;
use crate::data::client::{spec_add_client, spec_client_number, spec_evict_client, ClientType, ClientsView};
use crate::machine::execute_command::spec_get_response;
use crate::machine::handle_client::spec_reply;
use crate::protocol::decode::spec_decode_body;
use crate::protocol::encode::{request_bytes, response_bytes};
use crate::text::{decimal, digit_byte};
use vstd::utf8::encode_utf8;
use crate::protocol::response::ResponseView;

verus! {

/// A `GET` after a `SET` of `value` under `key` answers `value`, and a `GET`
/// of any other key answers what it answered before the `SET`.
pub proof fn get_after_set(
    contents: Map<Seq<char>, Seq<u8>>,
    key: Seq<char>,
    value: Seq<u8>,
    other: Seq<char>,
)
    ensures
        spec_get_response(contents.insert(key, value), key) == (ResponseView::Valid { message: value }),
        other != key ==> spec_get_response(contents.insert(key, value), other) == spec_get_response(
            contents,
            other,
        ),
{
}

/// Two writes in a row, each given the store's next identifier and each
/// advancing it by one (as `Db::set` does), get consecutive identifiers.
pub proof fn consecutive_set_ids(before: Db, between: Db, after: Db, first_id: i64, second_id: i64)
    requires
        first_id == before.next_id(),
        between.next_id() == before.next_id() + 1,
        second_id == between.next_id(),
        after.next_id() == between.next_id() + 1,
    ensures
        second_id == first_id + 1,
        after.next_id() == first_id + 2,
{
}

/// A connection that turns out to be a replica leaves the customers and is
/// counted among the replicas.
pub proof fn replica_moves_from_customers<C>(v: ClientsView<C>, client: C, fd: i32)
    ensures
        !spec_add_client(v, client, ClientType::Replication, fd).customer.contains_key(fd),
        spec_add_client(v, client, ClientType::Replication, fd).replication.contains_key(fd),
        spec_add_client(v, client, ClientType::Replication, fd).primary == v.primary,
{
}

/// Adding a client twice under the same descriptor is the same as adding it
/// once: the first handle stays.
pub proof fn add_client_idempotent<C>(v: ClientsView<C>, client: C, again: C, client_type: ClientType, fd: i32)
    ensures
        spec_add_client(spec_add_client(v, client, client_type, fd), again, client_type, fd)
            == spec_add_client(v, client, client_type, fd),
{
    let once = spec_add_client(v, client, client_type, fd);
    match client_type {
        ClientType::Replication => {
            assert(once.customer.remove(fd) =~= once.customer);
        },
        _ => {},
    }
}

/// Adding a customer under a new descriptor counts one more customer, and
/// evicting it again gives back the collections as they were.
pub proof fn add_then_evict_customer<C>(v: ClientsView<C>, client: C, fd: i32)
    requires
        v.customer.dom().finite(),
        !v.customer.contains_key(fd),
    ensures
        spec_client_number(spec_add_client(v, client, ClientType::Customer, fd), ClientType::Customer)
            == Some(v.customer.len() + 1),
        spec_evict_client(spec_add_client(v, client, ClientType::Customer, fd), ClientType::Customer, fd)
            == v,
{
    let added = spec_add_client(v, client, ClientType::Customer, fd);
    assert(added.customer.remove(fd) =~= v.customer);
}

/// A client of unknown type is neither recorded nor evicted, and is not
/// counted.
pub proof fn unknown_clients_change_nothing<C>(v: ClientsView<C>, client: C, fd: i32)
    ensures
        spec_add_client(v, client, ClientType::Unknown, fd) == v,
        spec_evict_client(v, ClientType::Unknown, fd) == v,
        spec_client_number(v, ClientType::Unknown) is None,
{
}

/// Every reply ends with its body, intact.
pub proof fn reply_carries_body(code: u16, body: Seq<u8>)
    ensures
        ({
            let r = response_bytes(code, body);
            &&& r.len() >= body.len()
            &&& r.subrange(r.len() - body.len(), r.len() as int) == body
        }),
{
    let r = response_bytes(code, body);
    assert(r.subrange(r.len() - body.len(), r.len() as int) =~= body);
}

/// Every response but the empty one is answered, and a valid response is
/// answered with status 200 and its message as the body.
pub proof fn responses_are_answered(resp: ResponseView)
    ensures
        spec_reply(resp) is None <==> resp is Empty,
        resp matches ResponseView::Valid { message } ==> spec_reply(resp) == Some(response_bytes(200, message)),
{
}

/// Once the head is complete and the body is JSON, reading always yields a
/// command (possibly a `BadCommand`), unless the `id` is out of range.
pub proof fn json_bodies_yield_commands(text: Seq<u8>)
    ensures
        spec_decode_body(text) is Command || spec_decode_body(text) is IdNotI64,
{
}

/// The number that the ASCII digits `s` write in decimal.
pub open spec fn decimal_value(s: Seq<u8>) -> nat
    decreases s.len(),
{
    if s.len() == 0 {
        0
    } else {
        decimal_value(s.drop_last()) * 10 + (s.last() - 48) as nat
    }
}

/// Whether every byte of `s` is an ASCII digit.
pub open spec fn all_ascii_digits(s: Seq<u8>) -> bool {
    forall|i: int| 0 <= i < s.len() ==> 48 <= #[trigger] s[i] <= 57
}

/// A decimal numeral is a non-empty run of ASCII digits that reads back as
/// the number it was written for.
pub proof fn decimal_reads_back(n: nat)
    ensures
        decimal(n).len() > 0,
        all_ascii_digits(decimal(n)),
        decimal_value(decimal(n)) == n,
    decreases n,
{
    if n >= 10 {
        decimal_reads_back(n / 10);
        let d = decimal(n);
        assert(d.drop_last() =~= decimal(n / 10));
        assert((n / 10) * 10 + n % 10 == n) by (nonlinear_arith);
        assert(d.last() == digit_byte(n % 10));
        assert(digit_byte(n % 10) as int == 48 + n % 10);
        assert(decimal_value(d) == decimal_value(decimal(n / 10)) * 10 + (n % 10));
    } else {
        let d = decimal(n);
        assert(d.drop_last() =~= Seq::<u8>::empty());
        assert(digit_byte(n) as int == 48 + n);
        assert(decimal_value(d) == decimal_value(d.drop_last()) * 10 + (d.last() - 48) as nat);
    }
}

/// The bytes of the head of a response up to the `Content-Length` value.
pub open spec fn response_head_before_length(code: u16) -> Seq<u8> {
    encode_utf8("HTTP/1.1 "@) + decimal(code as nat) + encode_utf8("\r\nContent-Length: "@)
}

/// In every response, the status line carries the code, the text after
/// `Content-Length: ` is a run of digits that reads back as the exact length
/// of the body, and after the blank line comes the body itself.
pub proof fn response_length_reads_back(code: u16, body: Seq<u8>)
    ensures
        ({
            let r = response_bytes(code, body);
            let k = response_head_before_length(code).len();
            exists|j: int|
                k < j <= r.len() && {
                    &&& r.subrange(0, k as int) == response_head_before_length(code)
                    &&& all_ascii_digits(r.subrange(k as int, j))
                    &&& decimal_value(r.subrange(k as int, j)) == body.len()
                    &&& r.subrange(j, r.len() as int) == encode_utf8("\r\n\r\n"@) + body
                }
        }),
        ({
            let r = response_bytes(code, body);
            let s = encode_utf8("HTTP/1.1 "@).len();
            decimal_value(r.subrange(s as int, (s + decimal(code as nat).len()) as int)) == code
        }),
{
    decimal_reads_back(body.len());
    decimal_reads_back(code as nat);
    let r = response_bytes(code, body);
    let head = response_head_before_length(code);
    let num = decimal(body.len());
    let tail = encode_utf8("\r\n\r\n"@) + body;
    assert(r =~= head + num + tail);
    let k = head.len() as int;
    let j = k + num.len();
    assert(r.subrange(0, k) =~= head);
    assert(r.subrange(k, j) =~= num);
    assert(r.subrange(j, r.len() as int) =~= tail);
    let s = encode_utf8("HTTP/1.1 "@).len();
    assert(r.subrange(s as int, (s + decimal(code as nat).len()) as int) =~= decimal(code as nat));
}

} // verus!
