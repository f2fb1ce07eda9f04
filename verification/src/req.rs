//! Typed requests, the request envelope, and their exact JSON wire text.
//!
//! The envelope serializes to a single JSON object: the `CMD` tag first,
//! then the request's own fields, then `PROTOCOL` and `TIMESTAMP`. The
//! emission below is verified against [`envelope_json`], a byte-exact
//! model of that text.

use crate::enc::{concat_frames, cr_free, frame_rest, frames_of, lemma_framing_round_trip};
use crate::text::{ascii_bytes, dec_bytes, lemma_dec_bytes_digits, push_ascii, push_dec_u64};
use crate::ver::ProtocolVersion;
use vstd::prelude::*;

verus! {

/// One item of an `ITEM_VALUE_SET` request.
#[derive(Debug, Clone, Copy, PartialEq, Eq, Structural)]
pub struct ItemSetValue {
    pub value: SetValue,
    pub number: u32,
}

/// A commanded value for one item.
#[derive(Debug, Clone, Copy, PartialEq, Eq, Structural)]
pub enum SetValue {
    On(ClickDuration),
    Off(ClickDuration),
    Dimm(u8),
    Blinds(u8),
}

/// Whether a commanded switch is a short press or a hold.
#[derive(Debug, Clone, Copy, PartialEq, Eq, Structural)]
pub enum ClickDuration {
    Short,
    Long,
}

#[derive(Debug, Clone, Copy, PartialEq, Eq, Structural)]
pub struct VersionReq;

#[derive(Debug, Clone, Copy, PartialEq, Eq, Structural)]
pub struct GetChannelInfoAllReq;

#[derive(Debug, Clone, PartialEq, Eq)]
pub struct ItemValueSignInReq {
    pub items: Vec<u32>,
}

#[derive(Debug, Clone, PartialEq, Eq)]
pub struct ItemValueSignOutReq {
    pub items: Vec<u32>,
}

#[derive(Debug, Clone, Copy, PartialEq, Eq, Structural)]
pub struct BlockListReq {
    pub list_range: u32,
}

#[derive(Debug, Clone, Copy, PartialEq, Eq, Structural)]
pub struct ProjectListReq;

#[derive(Debug, Clone, PartialEq, Eq)]
pub struct ItemValueSetReq {
    pub values: Vec<ItemSetValue>,
}

impl VersionReq {
    pub fn new() -> (r: VersionReq)
        ensures
            r == VersionReq,
    {
        VersionReq
    }
}

impl GetChannelInfoAllReq {
    pub fn new() -> (r: GetChannelInfoAllReq)
        ensures
            r == GetChannelInfoAllReq,
    {
        GetChannelInfoAllReq
    }
}

impl ItemValueSignInReq {
    pub fn new(items: Vec<u32>) -> (r: ItemValueSignInReq)
        ensures
            r.items == items,
    {
        ItemValueSignInReq { items }
    }
}

impl ItemValueSignOutReq {
    pub fn new(items: Vec<u32>) -> (r: ItemValueSignOutReq)
        ensures
            r.items == items,
    {
        ItemValueSignOutReq { items }
    }
}

impl BlockListReq {
    pub fn new(list_range: u32) -> (r: BlockListReq)
        ensures
            r.list_range == list_range,
    {
        BlockListReq { list_range }
    }
}

impl ProjectListReq {
    pub fn new() -> (r: ProjectListReq)
        ensures
            r == ProjectListReq,
    {
        ProjectListReq
    }
}

impl ItemValueSetReq {
    pub fn new(values: Vec<ItemSetValue>) -> (r: ItemValueSetReq)
        ensures
            r.values == values,
    {
        ItemValueSetReq { values }
    }
}

/// A request of any kind.
#[derive(Debug, Clone, PartialEq, Eq)]
pub enum Request {
    Version(VersionReq),
    GetChannelInfoAll(GetChannelInfoAllReq),
    ItemValueSignIn(ItemValueSignInReq),
    ItemValueSignOut(ItemValueSignOutReq),
    BlockList(BlockListReq),
    ProjectList(ProjectListReq),
    ItemValueSet(ItemValueSetReq),
}

/// A request's kind, without its body.
#[derive(Debug, Clone, Copy, PartialEq, Eq, Structural)]
pub enum RequestKind {
    Version,
    GetChannelInfoAll,
    ItemValueSignIn,
    ItemValueSignOut,
    BlockList,
    ProjectList,
    ItemValueSet,
}

impl Request {
    /// The kind this request belongs to.
    pub open spec fn kind_spec(&self) -> RequestKind {
        match self {
            Request::Version(_) => RequestKind::Version,
            Request::GetChannelInfoAll(_) => RequestKind::GetChannelInfoAll,
            Request::ItemValueSignIn(_) => RequestKind::ItemValueSignIn,
            Request::ItemValueSignOut(_) => RequestKind::ItemValueSignOut,
            Request::BlockList(_) => RequestKind::BlockList,
            Request::ProjectList(_) => RequestKind::ProjectList,
            Request::ItemValueSet(_) => RequestKind::ItemValueSet,
        }
    }

    pub fn kind(&self) -> (r: RequestKind)
        ensures
            r == self.kind_spec(),
    {
        match self {
            Request::Version(_) => RequestKind::Version,
            Request::GetChannelInfoAll(_) => RequestKind::GetChannelInfoAll,
            Request::ItemValueSignIn(_) => RequestKind::ItemValueSignIn,
            Request::ItemValueSignOut(_) => RequestKind::ItemValueSignOut,
            Request::BlockList(_) => RequestKind::BlockList,
            Request::ProjectList(_) => RequestKind::ProjectList,
            Request::ItemValueSet(_) => RequestKind::ItemValueSet,
        }
    }
}

/// Implemented only by this crate's request types.
pub trait Sealed {

}

/// A type that can stand as a request body.
pub trait RequestType: Sealed {
    /// The protocol version the request speaks.
    fn protocol_version(&self) -> (r: ProtocolVersion)
        ensures
            r == ProtocolVersion::ZeroZeroThree,
    ;
}

impl Sealed for VersionReq {

}

impl RequestType for VersionReq {
    fn protocol_version(&self) -> (r: ProtocolVersion) {
        ProtocolVersion::ZeroZeroThree
    }
}

impl Sealed for GetChannelInfoAllReq {

}

impl RequestType for GetChannelInfoAllReq {
    fn protocol_version(&self) -> (r: ProtocolVersion) {
        ProtocolVersion::ZeroZeroThree
    }
}

impl Sealed for ItemValueSignInReq {

}

impl RequestType for ItemValueSignInReq {
    fn protocol_version(&self) -> (r: ProtocolVersion) {
        ProtocolVersion::ZeroZeroThree
    }
}

impl Sealed for ItemValueSignOutReq {

}

impl RequestType for ItemValueSignOutReq {
    fn protocol_version(&self) -> (r: ProtocolVersion) {
        ProtocolVersion::ZeroZeroThree
    }
}

impl Sealed for BlockListReq {

}

impl RequestType for BlockListReq {
    fn protocol_version(&self) -> (r: ProtocolVersion) {
        ProtocolVersion::ZeroZeroThree
    }
}

impl Sealed for ProjectListReq {

}

impl RequestType for ProjectListReq {
    fn protocol_version(&self) -> (r: ProtocolVersion) {
        ProtocolVersion::ZeroZeroThree
    }
}

impl Sealed for ItemValueSetReq {

}

impl RequestType for ItemValueSetReq {
    fn protocol_version(&self) -> (r: ProtocolVersion) {
        ProtocolVersion::ZeroZeroThree
    }
}

impl Sealed for Request {

}

impl RequestType for Request {
    fn protocol_version(&self) -> (r: ProtocolVersion) {
        ProtocolVersion::ZeroZeroThree
    }
}

/// Relies on `std::time::SystemTime::now` for the wall clock: the seconds
/// since the Unix epoch, or zero should the clock read before it. Nothing
/// is promised of the value.
#[verifier::external_body]
pub fn now_unix_secs() -> u64 {
    match std::time::SystemTime::now().duration_since(std::time::UNIX_EPOCH) {
        Ok(d) => d.as_secs(),
        Err(_) => 0,
    }
}

/// A request stamped with the protocol version and the send time.
#[derive(Debug, Clone, PartialEq, Eq)]
pub struct RequestEnvelope {
    pub body: Request,
    pub protocol: ProtocolVersion,
    pub timestamp: u64,
}

impl RequestEnvelope {
    /// Wrap a request, stamping it with the wall clock.
    pub fn new(request: Request) -> (r: RequestEnvelope)
        ensures
            r.body == request,
            r.protocol == ProtocolVersion::ZeroZeroThree,
    {
        let ts = now_unix_secs();
        RequestEnvelope { body: request, protocol: ProtocolVersion::ZeroZeroThree, timestamp: ts }
    }

    /// Wrap a request with an explicit timestamp.
    pub fn at_time(request: Request, timestamp: u64) -> (r: RequestEnvelope)
        ensures
            r.body == request,
            r.protocol == ProtocolVersion::ZeroZeroThree,
            r.timestamp == timestamp,
    {
        RequestEnvelope { body: request, protocol: ProtocolVersion::ZeroZeroThree, timestamp }
    }
}

/// The `CMD` tag of a request.
pub open spec fn kind_tag(r: Request) -> Seq<char> {
    match r {
        Request::Version(_) => "VERSION_REQ"@,
        Request::GetChannelInfoAll(_) => "GET_CHANNEL_INFO_ALL_REQ"@,
        Request::ItemValueSignIn(_) => "ITEM_VALUE_SIGN_IN_REQ"@,
        Request::ItemValueSignOut(_) => "ITEM_VALUE_SIGN_OUT_REQ"@,
        Request::BlockList(_) => "BLOCK_LIST_REQ"@,
        Request::ProjectList(_) => "PROJECT_LIST_GET"@,
        Request::ItemValueSet(_) => "ITEM_VALUE_SET"@,
    }
}

/// The JSON fields of one commanded value, without braces.
pub open spec fn set_value_json(v: SetValue) -> Seq<u8> {
    match v {
        SetValue::On(ClickDuration::Short) => ascii_bytes("\"STATE\":\"ON\""@),
        SetValue::On(ClickDuration::Long) => ascii_bytes(
            "\"STATE\":\"ON\",\"LONG_CLICK\":\"ON\""@,
        ),
        SetValue::Off(ClickDuration::Short) => ascii_bytes("\"STATE\":\"OFF\""@),
        SetValue::Off(ClickDuration::Long) => ascii_bytes(
            "\"STATE\":\"OFF\",\"LONG_CLICK\":\"ON\""@,
        ),
        SetValue::Dimm(b) => ascii_bytes("\"STATE\":\"VALUE_DIMM\",\"VALUE\":"@) + dec_bytes(
            b as nat,
        ),
        SetValue::Blinds(b) => ascii_bytes("\"STATE\":\"VALUE_BLINDS\",\"VALUE\":"@) + dec_bytes(
            b as nat,
        ),
    }
}

/// The JSON object of one commanded item: the value's fields, then `NUMBER`.
pub open spec fn item_set_value_json(it: ItemSetValue) -> Seq<u8> {
    ascii_bytes("{"@) + set_value_json(it.value) + ascii_bytes(",\"NUMBER\":"@) + dec_bytes(
        it.number as nat,
    ) + ascii_bytes("}"@)
}

/// A comma-separated list of decimal numbers.
pub open spec fn u32_list_json(items: Seq<u32>) -> Seq<u8>
    decreases items.len(),
{
    if items.len() == 0 {
        Seq::empty()
    } else if items.len() == 1 {
        dec_bytes(items[0] as nat)
    } else {
        u32_list_json(items.drop_last()) + ascii_bytes(","@) + dec_bytes(items.last() as nat)
    }
}

/// A comma-separated list of commanded-item objects.
pub open spec fn values_list_json(values: Seq<ItemSetValue>) -> Seq<u8>
    decreases values.len(),
{
    if values.len() == 0 {
        Seq::empty()
    } else if values.len() == 1 {
        item_set_value_json(values[0])
    } else {
        values_list_json(values.drop_last()) + ascii_bytes(","@) + item_set_value_json(
            values.last(),
        )
    }
}

/// The request-specific fields that follow the `CMD` tag, with their leading
/// comma; empty for requests without a body.
pub open spec fn request_fields_json(r: Request) -> Seq<u8> {
    match r {
        Request::Version(_) => Seq::empty(),
        Request::GetChannelInfoAll(_) => Seq::empty(),
        Request::ItemValueSignIn(q) => ascii_bytes(",\"ITEMS\":["@) + u32_list_json(q.items@)
            + ascii_bytes("]"@),
        Request::ItemValueSignOut(q) => ascii_bytes(",\"ITEMS\":["@) + u32_list_json(q.items@)
            + ascii_bytes("]"@),
        Request::BlockList(q) => ascii_bytes(",\"LIST-RANGE\":"@) + dec_bytes(
            q.list_range as nat,
        ),
        Request::ProjectList(_) => Seq::empty(),
        Request::ItemValueSet(q) => ascii_bytes(",\"VALUES\":["@) + values_list_json(q.values@)
            + ascii_bytes("]"@),
    }
}

/// The whole envelope's JSON text: the tag, the request's fields, the
/// protocol version and the timestamp as a decimal string.
pub open spec fn envelope_json(env: RequestEnvelope) -> Seq<u8> {
    ascii_bytes("{\"CMD\":\""@) + ascii_bytes(kind_tag(env.body)) + ascii_bytes("\""@)
        + request_fields_json(env.body) + ascii_bytes(",\"PROTOCOL\":\""@)
        + vstd::utf8::encode_utf8(env.protocol.chars()) + ascii_bytes("\",\"TIMESTAMP\":\""@)
        + dec_bytes(env.timestamp as nat) + ascii_bytes("\"}"@)
}

fn append_set_value_json(out: &mut Vec<u8>, v: &SetValue)
    ensures
        final(out)@ == old(out)@ + set_value_json(*v),
{
    proof {
        reveal_strlit("\"STATE\":\"ON\"");
        reveal_strlit("\"STATE\":\"ON\",\"LONG_CLICK\":\"ON\"");
        reveal_strlit("\"STATE\":\"OFF\"");
        reveal_strlit("\"STATE\":\"OFF\",\"LONG_CLICK\":\"ON\"");
        reveal_strlit("\"STATE\":\"VALUE_DIMM\",\"VALUE\":");
        reveal_strlit("\"STATE\":\"VALUE_BLINDS\",\"VALUE\":");
    }
    let ghost start = out@;
    match v {
        SetValue::On(ClickDuration::Short) => {
            push_ascii(out, "\"STATE\":\"ON\"");
        },
        SetValue::On(ClickDuration::Long) => {
            push_ascii(out, "\"STATE\":\"ON\",\"LONG_CLICK\":\"ON\"");
        },
        SetValue::Off(ClickDuration::Short) => {
            push_ascii(out, "\"STATE\":\"OFF\"");
        },
        SetValue::Off(ClickDuration::Long) => {
            push_ascii(out, "\"STATE\":\"OFF\",\"LONG_CLICK\":\"ON\"");
        },
        SetValue::Dimm(b) => {
            push_ascii(out, "\"STATE\":\"VALUE_DIMM\",\"VALUE\":");
            push_dec_u64(out, *b as u64);
            proof {
                assert(out@ =~= start + set_value_json(*v));
            }
        },
        SetValue::Blinds(b) => {
            push_ascii(out, "\"STATE\":\"VALUE_BLINDS\",\"VALUE\":");
            push_dec_u64(out, *b as u64);
            proof {
                assert(out@ =~= start + set_value_json(*v));
            }
        },
    }
}

/// Append one commanded item's JSON object to `out`.
pub fn append_item_set_value_json(out: &mut Vec<u8>, it: &ItemSetValue)
    ensures
        final(out)@ == old(out)@ + item_set_value_json(*it),
{
    proof {
        reveal_strlit("{");
        reveal_strlit(",\"NUMBER\":");
        reveal_strlit("}");
    }
    let ghost start = out@;
    push_ascii(out, "{");
    append_set_value_json(out, &it.value);
    push_ascii(out, ",\"NUMBER\":");
    push_dec_u64(out, it.number as u64);
    push_ascii(out, "}");
    proof {
        assert(out@ =~= start + item_set_value_json(*it));
    }
}

fn append_u32_list_json(out: &mut Vec<u8>, items: &Vec<u32>)
    ensures
        final(out)@ == old(out)@ + u32_list_json(items@),
{
    proof {
        reveal_strlit(",");
    }
    let ghost start = out@;
    let mut i: usize = 0;
    proof {
        assert(items@.take(0) =~= Seq::<u32>::empty());
    }
    while i < items.len()
        invariant
            i <= items@.len(),
            out@ == start + u32_list_json(items@.take(i as int)),
        decreases items@.len() - i,
    {
        proof {
            reveal_strlit(",");
        }
        if i > 0 {
            push_ascii(out, ",");
        }
        push_dec_u64(out, items[i] as u64);
        proof {
            assert(items@.take(i + 1).drop_last() =~= items@.take(i as int));
            assert(items@.take(i + 1).last() == items@[i as int]);
            assert(out@ =~= start + u32_list_json(items@.take(i + 1)));
        }
        i = i + 1;
    }
    proof {
        assert(items@.take(items@.len() as int) =~= items@);
    }
}

fn append_values_list_json(out: &mut Vec<u8>, values: &Vec<ItemSetValue>)
    ensures
        final(out)@ == old(out)@ + values_list_json(values@),
{
    proof {
        reveal_strlit(",");
    }
    let ghost start = out@;
    let mut i: usize = 0;
    proof {
        assert(values@.take(0) =~= Seq::<ItemSetValue>::empty());
    }
    while i < values.len()
        invariant
            i <= values@.len(),
            out@ == start + values_list_json(values@.take(i as int)),
        decreases values@.len() - i,
    {
        proof {
            reveal_strlit(",");
        }
        if i > 0 {
            push_ascii(out, ",");
        }
        append_item_set_value_json(out, &values[i]);
        proof {
            assert(values@.take(i + 1).drop_last() =~= values@.take(i as int));
            assert(values@.take(i + 1).last() == values@[i as int]);
            assert(out@ =~= start + values_list_json(values@.take(i + 1)));
        }
        i = i + 1;
    }
    proof {
        assert(values@.take(values@.len() as int) =~= values@);
    }
}

fn append_kind_tag(out: &mut Vec<u8>, r: &Request)
    ensures
        final(out)@ == old(out)@ + ascii_bytes(kind_tag(*r)),
{
    proof {
        reveal_strlit("VERSION_REQ");
        reveal_strlit("GET_CHANNEL_INFO_ALL_REQ");
        reveal_strlit("ITEM_VALUE_SIGN_IN_REQ");
        reveal_strlit("ITEM_VALUE_SIGN_OUT_REQ");
        reveal_strlit("BLOCK_LIST_REQ");
        reveal_strlit("PROJECT_LIST_GET");
        reveal_strlit("ITEM_VALUE_SET");
    }
    match r {
        Request::Version(_) => push_ascii(out, "VERSION_REQ"),
        Request::GetChannelInfoAll(_) => push_ascii(out, "GET_CHANNEL_INFO_ALL_REQ"),
        Request::ItemValueSignIn(_) => push_ascii(out, "ITEM_VALUE_SIGN_IN_REQ"),
        Request::ItemValueSignOut(_) => push_ascii(out, "ITEM_VALUE_SIGN_OUT_REQ"),
        Request::BlockList(_) => push_ascii(out, "BLOCK_LIST_REQ"),
        Request::ProjectList(_) => push_ascii(out, "PROJECT_LIST_GET"),
        Request::ItemValueSet(_) => push_ascii(out, "ITEM_VALUE_SET"),
    }
}

fn append_request_fields(out: &mut Vec<u8>, r: &Request)
    ensures
        final(out)@ == old(out)@ + request_fields_json(*r),
{
    proof {
        reveal_strlit(",\"ITEMS\":[");
        reveal_strlit(",\"LIST-RANGE\":");
        reveal_strlit(",\"VALUES\":[");
        reveal_strlit("]");
    }
    let ghost start = out@;
    match r {
        Request::Version(_) => (),
        Request::GetChannelInfoAll(_) => (),
        Request::ItemValueSignIn(q) => {
            push_ascii(out, ",\"ITEMS\":[");
            append_u32_list_json(out, &q.items);
            push_ascii(out, "]");
            proof {
                assert(out@ =~= start + request_fields_json(*r));
            }
        },
        Request::ItemValueSignOut(q) => {
            push_ascii(out, ",\"ITEMS\":[");
            append_u32_list_json(out, &q.items);
            push_ascii(out, "]");
            proof {
                assert(out@ =~= start + request_fields_json(*r));
            }
        },
        Request::BlockList(q) => {
            push_ascii(out, ",\"LIST-RANGE\":");
            push_dec_u64(out, q.list_range as u64);
            proof {
                assert(out@ =~= start + request_fields_json(*r));
            }
        },
        Request::ProjectList(_) => (),
        Request::ItemValueSet(q) => {
            push_ascii(out, ",\"VALUES\":[");
            append_values_list_json(out, &q.values);
            push_ascii(out, "]");
            proof {
                assert(out@ =~= start + request_fields_json(*r));
            }
        },
    }
}

/// Append the envelope's JSON text to `out`.
pub fn append_envelope_json(out: &mut Vec<u8>, env: &RequestEnvelope)
    ensures
        final(out)@ == old(out)@ + envelope_json(*env),
{
    proof {
        reveal_strlit("{\"CMD\":\"");
        reveal_strlit("\"");
        reveal_strlit(",\"PROTOCOL\":\"");
        reveal_strlit("\",\"TIMESTAMP\":\"");
        reveal_strlit("\"}");
        reveal_strlit("0.03");
    }
    let ghost start = out@;
    push_ascii(out, "{\"CMD\":\"");
    append_kind_tag(out, &env.body);
    push_ascii(out, "\"");
    append_request_fields(out, &env.body);
    push_ascii(out, ",\"PROTOCOL\":\"");
    match &env.protocol {
        ProtocolVersion::ZeroZeroThree => {
            push_ascii(out, "0.03");
            proof {
                vstd::utf8::is_ascii_chars_encode_utf8("0.03"@);
                assert(vstd::utf8::encode_utf8(env.protocol.chars()) =~= ascii_bytes("0.03"@));
            }
        },
        ProtocolVersion::Unknown(s) => {
            let ghost before = out@;
            out.extend_from_slice(s.as_str().as_bytes());
            proof {
                assert(out@ == before + vstd::utf8::encode_utf8(env.protocol.chars()));
            }
        },
    }
    push_ascii(out, "\",\"TIMESTAMP\":\"");
    push_dec_u64(out, env.timestamp);
    push_ascii(out, "\"}");
    proof {
        assert(out@ =~= start + envelope_json(*env));
    }
}

proof fn lemma_cr_free_concat(a: Seq<u8>, b: Seq<u8>)
    requires
        cr_free(a),
        cr_free(b),
    ensures
        cr_free(a + b),
{
    assert forall|i: int| 0 <= i < (a + b).len() implies (a + b)[i] != 13u8 by {
        if i < a.len() {
            assert((a + b)[i] == a[i]);
        } else {
            assert((a + b)[i] == b[i - a.len()]);
        }
    }
}

proof fn lemma_cr_free_dec(n: nat)
    ensures
        cr_free(dec_bytes(n)),
{
    lemma_dec_bytes_digits(n);
}

proof fn lemma_cr_free_u32_list(items: Seq<u32>)
    ensures
        cr_free(u32_list_json(items)),
    decreases items.len(),
{
    reveal_strlit(",");
    if items.len() == 0 {
    } else if items.len() == 1 {
        lemma_cr_free_dec(items[0] as nat);
    } else {
        lemma_cr_free_u32_list(items.drop_last());
        assert(cr_free(ascii_bytes(","@)));
        lemma_cr_free_dec(items.last() as nat);
        lemma_cr_free_concat(u32_list_json(items.drop_last()), ascii_bytes(","@));
        lemma_cr_free_concat(
            u32_list_json(items.drop_last()) + ascii_bytes(","@),
            dec_bytes(items.last() as nat),
        );
    }
}

proof fn lemma_cr_free_set_value(v: SetValue)
    ensures
        cr_free(set_value_json(v)),
{
    reveal_strlit("\"STATE\":\"ON\"");
    reveal_strlit("\"STATE\":\"ON\",\"LONG_CLICK\":\"ON\"");
    reveal_strlit("\"STATE\":\"OFF\"");
    reveal_strlit("\"STATE\":\"OFF\",\"LONG_CLICK\":\"ON\"");
    reveal_strlit("\"STATE\":\"VALUE_DIMM\",\"VALUE\":");
    reveal_strlit("\"STATE\":\"VALUE_BLINDS\",\"VALUE\":");
    match v {
        SetValue::On(_) => {
        },
        SetValue::Off(_) => {
        },
        SetValue::Dimm(b) => {
            lemma_cr_free_dec(b as nat);
            lemma_cr_free_concat(
                ascii_bytes("\"STATE\":\"VALUE_DIMM\",\"VALUE\":"@),
                dec_bytes(b as nat),
            );
        },
        SetValue::Blinds(b) => {
            lemma_cr_free_dec(b as nat);
            lemma_cr_free_concat(
                ascii_bytes("\"STATE\":\"VALUE_BLINDS\",\"VALUE\":"@),
                dec_bytes(b as nat),
            );
        },
    }
}

proof fn lemma_cr_free_item_set_value(it: ItemSetValue)
    ensures
        cr_free(item_set_value_json(it)),
{
    reveal_strlit("{");
    reveal_strlit(",\"NUMBER\":");
    reveal_strlit("}");
    lemma_cr_free_set_value(it.value);
    lemma_cr_free_dec(it.number as nat);
    lemma_cr_free_concat(ascii_bytes("{"@), set_value_json(it.value));
    lemma_cr_free_concat(
        ascii_bytes("{"@) + set_value_json(it.value),
        ascii_bytes(",\"NUMBER\":"@),
    );
    lemma_cr_free_concat(
        ascii_bytes("{"@) + set_value_json(it.value) + ascii_bytes(",\"NUMBER\":"@),
        dec_bytes(it.number as nat),
    );
    lemma_cr_free_concat(
        ascii_bytes("{"@) + set_value_json(it.value) + ascii_bytes(",\"NUMBER\":"@) + dec_bytes(
            it.number as nat,
        ),
        ascii_bytes("}"@),
    );
}

proof fn lemma_cr_free_values_list(values: Seq<ItemSetValue>)
    ensures
        cr_free(values_list_json(values)),
    decreases values.len(),
{
    reveal_strlit(",");
    if values.len() == 0 {
    } else if values.len() == 1 {
        lemma_cr_free_item_set_value(values[0]);
    } else {
        lemma_cr_free_values_list(values.drop_last());
        lemma_cr_free_item_set_value(values.last());
        lemma_cr_free_concat(values_list_json(values.drop_last()), ascii_bytes(","@));
        lemma_cr_free_concat(
            values_list_json(values.drop_last()) + ascii_bytes(","@),
            item_set_value_json(values.last()),
        );
    }
}

proof fn lemma_cr_free_fields(r: Request)
    ensures
        cr_free(request_fields_json(r)),
{
    reveal_strlit(",\"ITEMS\":[");
    reveal_strlit(",\"LIST-RANGE\":");
    reveal_strlit(",\"VALUES\":[");
    reveal_strlit("]");
    match r {
        Request::Version(_) => {
        },
        Request::GetChannelInfoAll(_) => {
        },
        Request::ItemValueSignIn(q) => {
            lemma_cr_free_u32_list(q.items@);
            lemma_cr_free_concat(ascii_bytes(",\"ITEMS\":["@), u32_list_json(q.items@));
            lemma_cr_free_concat(
                ascii_bytes(",\"ITEMS\":["@) + u32_list_json(q.items@),
                ascii_bytes("]"@),
            );
        },
        Request::ItemValueSignOut(q) => {
            lemma_cr_free_u32_list(q.items@);
            lemma_cr_free_concat(ascii_bytes(",\"ITEMS\":["@), u32_list_json(q.items@));
            lemma_cr_free_concat(
                ascii_bytes(",\"ITEMS\":["@) + u32_list_json(q.items@),
                ascii_bytes("]"@),
            );
        },
        Request::BlockList(q) => {
            lemma_cr_free_dec(q.list_range as nat);
            lemma_cr_free_concat(
                ascii_bytes(",\"LIST-RANGE\":"@),
                dec_bytes(q.list_range as nat),
            );
        },
        Request::ProjectList(_) => {
        },
        Request::ItemValueSet(q) => {
            lemma_cr_free_values_list(q.values@);
            lemma_cr_free_concat(ascii_bytes(",\"VALUES\":["@), values_list_json(q.values@));
            lemma_cr_free_concat(
                ascii_bytes(",\"VALUES\":["@) + values_list_json(q.values@),
                ascii_bytes("]"@),
            );
        },
    }
}

proof fn lemma_cr_free_tag(r: Request)
    ensures
        cr_free(ascii_bytes(kind_tag(r))),
{
    reveal_strlit("VERSION_REQ");
    reveal_strlit("GET_CHANNEL_INFO_ALL_REQ");
    reveal_strlit("ITEM_VALUE_SIGN_IN_REQ");
    reveal_strlit("ITEM_VALUE_SIGN_OUT_REQ");
    reveal_strlit("BLOCK_LIST_REQ");
    reveal_strlit("PROJECT_LIST_GET");
    reveal_strlit("ITEM_VALUE_SET");
}

/// The wire text of an envelope holds no carriage return, so it can never
/// contain or complete a frame delimiter.
pub proof fn lemma_envelope_json_cr_free(env: RequestEnvelope)
    requires
        env.protocol is ZeroZeroThree,
    ensures
        cr_free(envelope_json(env)),
{
    reveal_strlit("{\"CMD\":\"");
    reveal_strlit("\"");
    reveal_strlit(",\"PROTOCOL\":\"");
    reveal_strlit("\",\"TIMESTAMP\":\"");
    reveal_strlit("\"}");
    reveal_strlit("0.03");
    lemma_cr_free_tag(env.body);
    lemma_cr_free_fields(env.body);
    lemma_cr_free_dec(env.timestamp as nat);
    vstd::utf8::is_ascii_chars_encode_utf8("0.03"@);
    assert(vstd::utf8::encode_utf8(env.protocol.chars()) =~= ascii_bytes("0.03"@));
    let s1 = ascii_bytes("{\"CMD\":\""@);
    let s2 = ascii_bytes(kind_tag(env.body));
    let s3 = ascii_bytes("\""@);
    let s4 = request_fields_json(env.body);
    let s5 = ascii_bytes(",\"PROTOCOL\":\""@);
    let s6 = vstd::utf8::encode_utf8(env.protocol.chars());
    let s7 = ascii_bytes("\",\"TIMESTAMP\":\""@);
    let s8 = dec_bytes(env.timestamp as nat);
    let s9 = ascii_bytes("\"}"@);
    lemma_cr_free_concat(s1, s2);
    lemma_cr_free_concat(s1 + s2, s3);
    lemma_cr_free_concat(s1 + s2 + s3, s4);
    lemma_cr_free_concat(s1 + s2 + s3 + s4, s5);
    lemma_cr_free_concat(s1 + s2 + s3 + s4 + s5, s6);
    lemma_cr_free_concat(s1 + s2 + s3 + s4 + s5 + s6, s7);
    lemma_cr_free_concat(s1 + s2 + s3 + s4 + s5 + s6 + s7, s8);
    lemma_cr_free_concat(s1 + s2 + s3 + s4 + s5 + s6 + s7 + s8, s9);
}

/// Framing round-trip for whole requests: however the byte stream is
/// chunked, the framed concatenation of any encoded envelopes splits back
/// into exactly their payloads, with nothing left over.
pub proof fn lemma_request_framing_round_trip(envs: Seq<RequestEnvelope>)
    requires
        forall|i: int| 0 <= i < envs.len() ==> (#[trigger] envs[i]).protocol
            is ZeroZeroThree,
    ensures
        frames_of(concat_frames(Seq::new(envs.len(), |i: int| envelope_json(envs[i]))))
            == Seq::new(envs.len(), |i: int| envelope_json(envs[i])),
        frame_rest(concat_frames(Seq::new(envs.len(), |i: int| envelope_json(envs[i]))))
            == Seq::<u8>::empty(),
{
    let ps = Seq::new(envs.len(), |i: int| envelope_json(envs[i]));
    assert forall|i: int| 0 <= i < ps.len() implies cr_free(#[trigger] ps[i]) by {
        lemma_envelope_json_cr_free(envs[i]);
    }
    lemma_framing_round_trip(ps);
}

} // verus!
