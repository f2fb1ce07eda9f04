//! Typed responses and the two-phase dispatch: peek `CMD` and `PROTOCOL`,
//! then parse the body the pair calls for. Unknown pairs are preserved
//! verbatim as [`UnknownRes`] rather than rejected.

use crate::json::{obj_get, obj_get_spec, JsonVal};
use crate::proj::{
    field_str_of, parse_project_item, parse_project_list, parse_u32_array, project_item_of,
    project_list_of, u32_seq_of, ProjectItem, ProjectItemView, ProjectList, ProjectListView,
};
use crate::text::str_eq;
use crate::update::{parse_update_value, update_value_of, ItemUpdateValue, ItemUpdateValueView};
use crate::ver::ProtocolVersion;
use vstd::prelude::*;

verus! {

/// The gateway's firmware, hardware and protocol strings.
#[derive(Debug, Clone, PartialEq, Eq)]
pub struct VersionRes {
    pub firmware: String,
    pub hardware: String,
    pub enet: String,
}

pub struct VersionResView {
    pub firmware: Seq<char>,
    pub hardware: Seq<char>,
    pub enet: Seq<char>,
}

impl View for VersionRes {
    type V = VersionResView;

    open spec fn view(&self) -> VersionResView {
        VersionResView {
            firmware: self.firmware@,
            hardware: self.hardware@,
            enet: self.enet@,
        }
    }
}

/// The per-slot channel type codes, indexed by channel slot.
#[derive(Debug, Clone, PartialEq, Eq)]
pub struct GetChannelInfoAllRes {
    pub devices: Vec<u32>,
}

/// A `ITEM_VALUE_SET` acknowledgment; no body.
#[derive(Debug, Clone, PartialEq, Eq)]
pub struct ItemValueRes {

}

/// A subscription acknowledgment; no body.
#[derive(Debug, Clone, PartialEq, Eq)]
pub struct ItemValueSignInRes {

}

/// The project: its id, the ordered items, and the room lists.
#[derive(Debug, Clone, PartialEq, Eq)]
pub struct ProjectListRes {
    pub project_id: String,
    pub items: Vec<ProjectItem>,
    pub lists: Vec<ProjectList>,
}

pub struct ProjectListResView {
    pub project_id: Seq<char>,
    pub items: Seq<ProjectItemView>,
    pub lists: Seq<ProjectListView>,
}

impl View for ProjectListRes {
    type V = ProjectListResView;

    open spec fn view(&self) -> ProjectListResView {
        ProjectListResView {
            project_id: self.project_id@,
            items: Seq::new(self.items@.len(), |i: int| self.items@[i]@),
            lists: Seq::new(self.lists@.len(), |i: int| self.lists@[i]@),
        }
    }
}

/// A push update batch.
#[derive(Debug, Clone, PartialEq, Eq)]
pub struct ItemUpdateInd {
    pub values: Vec<ItemUpdateValue>,
}

pub struct ItemUpdateIndView {
    pub values: Seq<ItemUpdateValueView>,
}

impl View for ItemUpdateInd {
    type V = ItemUpdateIndView;

    open spec fn view(&self) -> ItemUpdateIndView {
        ItemUpdateIndView { values: Seq::new(self.values@.len(), |i: int| self.values@[i]@) }
    }
}

/// A response whose `(CMD, PROTOCOL)` pair the core does not know,
/// preserved with its parsed value.
#[derive(Debug, PartialEq)]
pub struct UnknownRes {
    pub kind: String,
    pub protocol: String,
    pub values: JsonVal,
}

pub struct UnknownResView {
    pub kind: Seq<char>,
    pub protocol: Seq<char>,
    pub values: JsonVal,
}

impl View for UnknownRes {
    type V = UnknownResView;

    open spec fn view(&self) -> UnknownResView {
        UnknownResView { kind: self.kind@, protocol: self.protocol@, values: self.values }
    }
}

/// A response of any kind.
#[derive(Debug, PartialEq)]
pub enum Response {
    Version(VersionRes),
    GetChannelInfoAll(GetChannelInfoAllRes),
    ItemValueSignIn(ItemValueSignInRes),
    ItemValue(ItemValueRes),
    ProjectList(ProjectListRes),
    ItemUpdate(ItemUpdateInd),
    Unknown(UnknownRes),
}

/// The abstract content of a response.
pub enum ResponseView {
    Version(VersionResView),
    GetChannelInfoAll { devices: Seq<u32> },
    ItemValueSignIn,
    ItemValue,
    ProjectList(ProjectListResView),
    ItemUpdate(ItemUpdateIndView),
    Unknown(UnknownResView),
}

impl View for Response {
    type V = ResponseView;

    open spec fn view(&self) -> ResponseView {
        match self {
            Response::Version(v) => ResponseView::Version(v@),
            Response::GetChannelInfoAll(v) => ResponseView::GetChannelInfoAll {
                devices: v.devices@,
            },
            Response::ItemValueSignIn(_) => ResponseView::ItemValueSignIn,
            Response::ItemValue(_) => ResponseView::ItemValue,
            Response::ProjectList(v) => ResponseView::ProjectList(v@),
            Response::ItemUpdate(v) => ResponseView::ItemUpdate(v@),
            Response::Unknown(v) => ResponseView::Unknown(v@),
        }
    }
}

/// A response's kind, without its body.
#[derive(Debug, Clone, Copy, PartialEq, Eq, Structural)]
pub enum ResponseKind {
    Version,
    GetChannelInfoAll,
    ItemValueSignIn,
    ItemValue,
    ProjectList,
    ItemUpdate,
    Unknown,
}

impl Response {
    /// The kind this response belongs to.
    pub open spec fn kind_spec(&self) -> ResponseKind {
        match self {
            Response::Version(_) => ResponseKind::Version,
            Response::GetChannelInfoAll(_) => ResponseKind::GetChannelInfoAll,
            Response::ItemValueSignIn(_) => ResponseKind::ItemValueSignIn,
            Response::ItemValue(_) => ResponseKind::ItemValue,
            Response::ProjectList(_) => ResponseKind::ProjectList,
            Response::ItemUpdate(_) => ResponseKind::ItemUpdate,
            Response::Unknown(_) => ResponseKind::Unknown,
        }
    }

    pub fn kind(&self) -> (r: ResponseKind)
        ensures
            r == self.kind_spec(),
    {
        match self {
            Response::Version(_) => ResponseKind::Version,
            Response::GetChannelInfoAll(_) => ResponseKind::GetChannelInfoAll,
            Response::ItemValueSignIn(_) => ResponseKind::ItemValueSignIn,
            Response::ItemValue(_) => ResponseKind::ItemValue,
            Response::ProjectList(_) => ResponseKind::ProjectList,
            Response::ItemUpdate(_) => ResponseKind::ItemUpdate,
            Response::Unknown(_) => ResponseKind::Unknown,
        }
    }
}

/// Implemented only by this crate's response types.
pub trait Sealed {

}

/// A type that can stand as a response body.
pub trait ResponseType: Sealed {
    /// The protocol version the response speaks.
    fn protocol_version(&self) -> (r: ProtocolVersion)
        ensures
            r == ProtocolVersion::ZeroZeroThree,
    ;
}

impl Sealed for VersionRes {

}

impl ResponseType for VersionRes {
    fn protocol_version(&self) -> (r: ProtocolVersion) {
        ProtocolVersion::ZeroZeroThree
    }
}

impl Sealed for GetChannelInfoAllRes {

}

impl ResponseType for GetChannelInfoAllRes {
    fn protocol_version(&self) -> (r: ProtocolVersion) {
        ProtocolVersion::ZeroZeroThree
    }
}

impl Sealed for ItemValueRes {

}

impl ResponseType for ItemValueRes {
    fn protocol_version(&self) -> (r: ProtocolVersion) {
        ProtocolVersion::ZeroZeroThree
    }
}

impl Sealed for ItemValueSignInRes {

}

impl ResponseType for ItemValueSignInRes {
    fn protocol_version(&self) -> (r: ProtocolVersion) {
        ProtocolVersion::ZeroZeroThree
    }
}

impl Sealed for ProjectListRes {

}

impl ResponseType for ProjectListRes {
    fn protocol_version(&self) -> (r: ProtocolVersion) {
        ProtocolVersion::ZeroZeroThree
    }
}

impl Sealed for ItemUpdateInd {

}

impl ResponseType for ItemUpdateInd {
    fn protocol_version(&self) -> (r: ProtocolVersion) {
        ProtocolVersion::ZeroZeroThree
    }
}

/// A sequence of project items, all of which must parse.
pub open spec fn items_seq_of(elems: Seq<JsonVal>) -> Option<Seq<ProjectItemView>>
    decreases elems.len(),
{
    if elems.len() == 0 {
        Some(Seq::empty())
    } else {
        match (items_seq_of(elems.drop_last()), project_item_of(elems.last())) {
            (Some(t), Some(x)) => Some(t + seq![x]),
            _ => None,
        }
    }
}

/// A sequence of room lists, all of which must parse.
pub open spec fn lists_seq_of(elems: Seq<JsonVal>) -> Option<Seq<ProjectListView>>
    decreases elems.len(),
{
    if elems.len() == 0 {
        Some(Seq::empty())
    } else {
        match (lists_seq_of(elems.drop_last()), project_list_of(elems.last())) {
            (Some(t), Some(x)) => Some(t + seq![x]),
            _ => None,
        }
    }
}

/// A sequence of update entries, all of which must parse.
pub open spec fn updates_seq_of(elems: Seq<JsonVal>) -> Option<Seq<ItemUpdateValueView>>
    decreases elems.len(),
{
    if elems.len() == 0 {
        Some(Seq::empty())
    } else {
        match (updates_seq_of(elems.drop_last()), update_value_of(elems.last())) {
            (Some(t), Some(x)) => Some(t + seq![x]),
            _ => None,
        }
    }
}

/// What the version body denotes.
pub open spec fn version_body_of(fs: Seq<(String, JsonVal)>) -> Option<VersionResView> {
    match (field_str_of(fs, "FIRMWARE"@), field_str_of(fs, "HARDWARE"@), field_str_of(
        fs,
        "ENET"@,
    )) {
        (Some(f), Some(h), Some(e)) => Some(
            VersionResView { firmware: f, hardware: h, enet: e },
        ),
        _ => None,
    }
}

/// What the channel-info body denotes.
pub open spec fn channel_body_of(fs: Seq<(String, JsonVal)>) -> Option<Seq<u32>> {
    match obj_get_spec(fs, "DEVICES"@) {
        Some(JsonVal::Arr(es)) => u32_seq_of(es@),
        _ => None,
    }
}

/// What the project body denotes.
pub open spec fn project_body_of(fs: Seq<(String, JsonVal)>) -> Option<ProjectListResView> {
    let items = match obj_get_spec(fs, "ITEMS"@) {
        Some(JsonVal::Arr(es)) => items_seq_of(es@),
        _ => None,
    };
    let lists = match obj_get_spec(fs, "LISTS"@) {
        Some(JsonVal::Arr(es)) => lists_seq_of(es@),
        _ => None,
    };
    match (field_str_of(fs, "PROJECT_ID"@), items, lists) {
        (Some(id), Some(its), Some(ls)) => Some(
            ProjectListResView { project_id: id, items: its, lists: ls },
        ),
        _ => None,
    }
}

/// What the update body denotes.
pub open spec fn update_body_of(fs: Seq<(String, JsonVal)>) -> Option<ItemUpdateIndView> {
    match obj_get_spec(fs, "VALUES"@) {
        Some(JsonVal::Arr(es)) => match updates_seq_of(es@) {
            Some(vs) => Some(ItemUpdateIndView { values: vs }),
            None => None,
        },
        _ => None,
    }
}

/// What a whole response denotes: `CMD` and `PROTOCOL` must be present as
/// strings; a known pair parses its body strictly, every other pair is kept
/// as an unknown response.
pub open spec fn response_of(v: JsonVal) -> Option<ResponseView> {
    match v {
        JsonVal::Obj(fs) => match (field_str_of(fs@, "CMD"@), field_str_of(fs@, "PROTOCOL"@)) {
            (Some(c), Some(p)) => {
                if p == "0.03"@ && c == "VERSION_RES"@ {
                    match version_body_of(fs@) {
                        Some(b) => Some(ResponseView::Version(b)),
                        None => None,
                    }
                } else if p == "0.03"@ && c == "GET_CHANNEL_INFO_ALL_RES"@ {
                    match channel_body_of(fs@) {
                        Some(d) => Some(ResponseView::GetChannelInfoAll { devices: d }),
                        None => None,
                    }
                } else if p == "0.03"@ && c == "ITEM_VALUE_RES"@ {
                    Some(ResponseView::ItemValue)
                } else if p == "0.03"@ && c == "ITEM_VALUE_SIGN_IN_RES"@ {
                    Some(ResponseView::ItemValueSignIn)
                } else if p == "0.03"@ && c == "PROJECT_LIST_RES"@ {
                    match project_body_of(fs@) {
                        Some(b) => Some(ResponseView::ProjectList(b)),
                        None => None,
                    }
                } else if p == "0.03"@ && c == "ITEM_UPDATE"@ {
                    match update_body_of(fs@) {
                        Some(b) => Some(ResponseView::ItemUpdate(b)),
                        None => None,
                    }
                } else {
                    Some(
                        ResponseView::Unknown(UnknownResView { kind: c, protocol: p, values: v }),
                    )
                }
            },
            _ => None,
        },
        _ => None,
    }
}

fn parse_version_body(fs: &Vec<(String, JsonVal)>) -> (r: Option<VersionRes>)
    ensures
        match r {
            Some(x) => version_body_of(fs@) == Some(x@),
            None => version_body_of(fs@) is None,
        },
{
    let f = match obj_get(fs, "FIRMWARE") {
        Some(x) => x.as_string(),
        None => None,
    };
    let h = match obj_get(fs, "HARDWARE") {
        Some(x) => x.as_string(),
        None => None,
    };
    let e = match obj_get(fs, "ENET") {
        Some(x) => x.as_string(),
        None => None,
    };
    match (f, h, e) {
        (Some(f), Some(h), Some(e)) => Some(VersionRes { firmware: f, hardware: h, enet: e }),
        _ => None,
    }
}

fn parse_channel_body(fs: &Vec<(String, JsonVal)>) -> (r: Option<GetChannelInfoAllRes>)
    ensures
        match r {
            Some(x) => channel_body_of(fs@) == Some(x.devices@),
            None => channel_body_of(fs@) is None,
        },
{
    match obj_get(fs, "DEVICES") {
        Some(x) => match x {
            JsonVal::Arr(es) => match parse_u32_array(es) {
                Some(d) => Some(GetChannelInfoAllRes { devices: d }),
                None => None,
            },
            _ => None,
        },
        None => None,
    }
}

/// Once a prefix fails to parse as project items, the whole sequence does.
proof fn lemma_items_seq_of_prefix_none(elems: Seq<JsonVal>, n: int)
    requires
        0 <= n <= elems.len(),
        items_seq_of(elems.take(n)) is None,
    ensures
        items_seq_of(elems) is None,
    decreases elems.len() - n,
{
    if n < elems.len() {
        assert(elems.take(n + 1).drop_last() =~= elems.take(n));
        lemma_items_seq_of_prefix_none(elems, n + 1);
    } else {
        assert(elems.take(n) =~= elems);
    }
}

/// Once a prefix fails to parse as room lists, the whole sequence does.
proof fn lemma_lists_seq_of_prefix_none(elems: Seq<JsonVal>, n: int)
    requires
        0 <= n <= elems.len(),
        lists_seq_of(elems.take(n)) is None,
    ensures
        lists_seq_of(elems) is None,
    decreases elems.len() - n,
{
    if n < elems.len() {
        assert(elems.take(n + 1).drop_last() =~= elems.take(n));
        lemma_lists_seq_of_prefix_none(elems, n + 1);
    } else {
        assert(elems.take(n) =~= elems);
    }
}

/// Once a prefix fails to parse as update entries, the whole sequence does.
proof fn lemma_updates_seq_of_prefix_none(elems: Seq<JsonVal>, n: int)
    requires
        0 <= n <= elems.len(),
        updates_seq_of(elems.take(n)) is None,
    ensures
        updates_seq_of(elems) is None,
    decreases elems.len() - n,
{
    if n < elems.len() {
        assert(elems.take(n + 1).drop_last() =~= elems.take(n));
        lemma_updates_seq_of_prefix_none(elems, n + 1);
    } else {
        assert(elems.take(n) =~= elems);
    }
}

fn parse_items_array(elems: &Vec<JsonVal>) -> (r: Option<Vec<ProjectItem>>)
    ensures
        match r {
            Some(out) => items_seq_of(elems@) == Some(
                Seq::new(out@.len(), |i: int| out@[i]@),
            ),
            None => items_seq_of(elems@) is None,
        },
{
    let mut out: Vec<ProjectItem> = Vec::new();
    let mut i: usize = 0;
    proof {
        assert(elems@.take(0) =~= Seq::<JsonVal>::empty());
        assert(items_seq_of(elems@.take(0)) == Some(Seq::<ProjectItemView>::empty()));
        assert(Seq::new(out@.len(), |k: int| out@[k]@) =~= Seq::<ProjectItemView>::empty());
    }
    while i < elems.len()
        invariant
            i <= elems@.len(),
            items_seq_of(elems@.take(i as int)) == Some(
                Seq::new(out@.len(), |k: int| out@[k]@),
            ),
            out@.len() == i,
        decreases elems@.len() - i,
    {
        proof {
            assert(elems@.take(i + 1).drop_last() =~= elems@.take(i as int));
            assert(elems@.take(i + 1).last() == elems@[i as int]);
        }
        match parse_project_item(&elems[i]) {
            Some(it) => {
                let ghost before = Seq::new(out@.len(), |k: int| out@[k]@);
                out.push(it);
                proof {
                    assert(Seq::new(out@.len(), |k: int| out@[k]@) =~= before + seq![it@]);
                }
            },
            None => {
                proof {
                    lemma_items_seq_of_prefix_none(elems@, i as int + 1);
                }
                return None;
            },
        }
        i = i + 1;
    }
    proof {
        assert(elems@.take(elems@.len() as int) =~= elems@);
    }
    Some(out)
}

fn parse_lists_array(elems: &Vec<JsonVal>) -> (r: Option<Vec<ProjectList>>)
    ensures
        match r {
            Some(out) => lists_seq_of(elems@) == Some(Seq::new(out@.len(), |i: int| out@[i]@)),
            None => lists_seq_of(elems@) is None,
        },
{
    let mut out: Vec<ProjectList> = Vec::new();
    let mut i: usize = 0;
    proof {
        assert(elems@.take(0) =~= Seq::<JsonVal>::empty());
        assert(Seq::new(out@.len(), |k: int| out@[k]@) =~= Seq::<ProjectListView>::empty());
    }
    while i < elems.len()
        invariant
            i <= elems@.len(),
            lists_seq_of(elems@.take(i as int)) == Some(
                Seq::new(out@.len(), |k: int| out@[k]@),
            ),
            out@.len() == i,
        decreases elems@.len() - i,
    {
        proof {
            assert(elems@.take(i + 1).drop_last() =~= elems@.take(i as int));
            assert(elems@.take(i + 1).last() == elems@[i as int]);
        }
        match parse_project_list(&elems[i]) {
            Some(l) => {
                let ghost before = Seq::new(out@.len(), |k: int| out@[k]@);
                out.push(l);
                proof {
                    assert(Seq::new(out@.len(), |k: int| out@[k]@) =~= before + seq![l@]);
                }
            },
            None => {
                proof {
                    lemma_lists_seq_of_prefix_none(elems@, i as int + 1);
                }
                return None;
            },
        }
        i = i + 1;
    }
    proof {
        assert(elems@.take(elems@.len() as int) =~= elems@);
    }
    Some(out)
}

fn parse_updates_array(elems: &Vec<JsonVal>) -> (r: Option<Vec<ItemUpdateValue>>)
    ensures
        match r {
            Some(out) => updates_seq_of(elems@) == Some(
                Seq::new(out@.len(), |i: int| out@[i]@),
            ),
            None => updates_seq_of(elems@) is None,
        },
{
    let mut out: Vec<ItemUpdateValue> = Vec::new();
    let mut i: usize = 0;
    proof {
        assert(elems@.take(0) =~= Seq::<JsonVal>::empty());
        assert(Seq::new(out@.len(), |k: int| out@[k]@) =~= Seq::<ItemUpdateValueView>::empty());
    }
    while i < elems.len()
        invariant
            i <= elems@.len(),
            updates_seq_of(elems@.take(i as int)) == Some(
                Seq::new(out@.len(), |k: int| out@[k]@),
            ),
            out@.len() == i,
        decreases elems@.len() - i,
    {
        proof {
            assert(elems@.take(i + 1).drop_last() =~= elems@.take(i as int));
            assert(elems@.take(i + 1).last() == elems@[i as int]);
        }
        match parse_update_value(&elems[i]) {
            Some(u) => {
                let ghost before = Seq::new(out@.len(), |k: int| out@[k]@);
                out.push(u);
                proof {
                    assert(Seq::new(out@.len(), |k: int| out@[k]@) =~= before + seq![u@]);
                }
            },
            None => {
                proof {
                    lemma_updates_seq_of_prefix_none(elems@, i as int + 1);
                }
                return None;
            },
        }
        i = i + 1;
    }
    proof {
        assert(elems@.take(elems@.len() as int) =~= elems@);
    }
    Some(out)
}

fn parse_project_body(fs: &Vec<(String, JsonVal)>) -> (r: Option<ProjectListRes>)
    ensures
        match r {
            Some(x) => project_body_of(fs@) == Some(x@),
            None => project_body_of(fs@) is None,
        },
{
    let id = match obj_get(fs, "PROJECT_ID") {
        Some(x) => x.as_string(),
        None => None,
    };
    let items = match obj_get(fs, "ITEMS") {
        Some(x) => match x {
            JsonVal::Arr(es) => parse_items_array(es),
            _ => None,
        },
        None => None,
    };
    let lists = match obj_get(fs, "LISTS") {
        Some(x) => match x {
            JsonVal::Arr(es) => parse_lists_array(es),
            _ => None,
        },
        None => None,
    };
    match (id, items, lists) {
        (Some(id), Some(its), Some(ls)) => Some(
            ProjectListRes { project_id: id, items: its, lists: ls },
        ),
        _ => None,
    }
}

fn parse_update_body(fs: &Vec<(String, JsonVal)>) -> (r: Option<ItemUpdateInd>)
    ensures
        match r {
            Some(x) => update_body_of(fs@) == Some(x@),
            None => update_body_of(fs@) is None,
        },
{
    match obj_get(fs, "VALUES") {
        Some(x) => match x {
            JsonVal::Arr(es) => match parse_updates_array(es) {
                Some(vs) => Some(ItemUpdateInd { values: vs }),
                None => None,
            },
            _ => None,
        },
        None => None,
    }
}

/// Turn a parsed JSON value into a typed response, or nothing where the
/// value does not fit the protocol: then the surrounding connection treats
/// the stream as unrecoverable.
pub fn response_from_json(v: JsonVal) -> (r: Option<Response>)
    ensures
        match r {
            Some(resp) => response_of(v) == Some(resp@),
            None => response_of(v) is None,
        },
{
    let (cmd, prot) = match &v {
        JsonVal::Obj(fs) => {
            let c = match obj_get(fs, "CMD") {
                Some(x) => x.as_string(),
                None => None,
            };
            let p = match obj_get(fs, "PROTOCOL") {
                Some(x) => x.as_string(),
                None => None,
            };
            (c, p)
        },
        _ => (None, None),
    };
    let cmd = match cmd {
        Some(c) => c,
        None => {
            return None;
        },
    };
    let prot = match prot {
        Some(p) => p,
        None => {
            return None;
        },
    };
    let zzt = str_eq(prot.as_str(), "0.03");
    if zzt && str_eq(cmd.as_str(), "VERSION_RES") {
        match &v {
            JsonVal::Obj(fs) => match parse_version_body(fs) {
                Some(b) => Some(Response::Version(b)),
                None => None,
            },
            _ => None,
        }
    } else if zzt && str_eq(cmd.as_str(), "GET_CHANNEL_INFO_ALL_RES") {
        match &v {
            JsonVal::Obj(fs) => match parse_channel_body(fs) {
                Some(b) => Some(Response::GetChannelInfoAll(b)),
                None => None,
            },
            _ => None,
        }
    } else if zzt && str_eq(cmd.as_str(), "ITEM_VALUE_RES") {
        Some(Response::ItemValue(ItemValueRes {  }))
    } else if zzt && str_eq(cmd.as_str(), "ITEM_VALUE_SIGN_IN_RES") {
        Some(Response::ItemValueSignIn(ItemValueSignInRes {  }))
    } else if zzt && str_eq(cmd.as_str(), "PROJECT_LIST_RES") {
        match &v {
            JsonVal::Obj(fs) => match parse_project_body(fs) {
                Some(b) => Some(Response::ProjectList(b)),
                None => None,
            },
            _ => None,
        }
    } else if zzt && str_eq(cmd.as_str(), "ITEM_UPDATE") {
        match &v {
            JsonVal::Obj(fs) => match parse_update_body(fs) {
                Some(b) => Some(Response::ItemUpdate(b)),
                None => None,
            },
            _ => None,
        }
    } else {
        Some(Response::Unknown(UnknownRes { kind: cmd, protocol: prot, values: v }))
    }
}

} // verus!
