//! Project items and room lists as the gateway reports them, and their
//! parse from JSON values.

use crate::json::{obj_get, obj_get_spec, JsonVal};
use crate::text::{seq_ci_eq, str_eq, str_eq_ci};
use vstd::prelude::*;

verus! {

/// A scene entry; not a device.
#[derive(Debug, Clone, PartialEq, Eq)]
pub struct ProjectScene {
    pub number: u32,
    pub name: String,
    pub dimmable: bool,
}

/// A binary-switch entry; a device when programmable.
#[derive(Debug, Clone, PartialEq, Eq)]
pub struct ProjectBinaer {
    pub number: u32,
    pub name: String,
    pub programmable: bool,
}

/// A dimmer entry.
#[derive(Debug, Clone, PartialEq, Eq)]
pub struct ProjectDimmer {
    pub number: u32,
    pub name: String,
}

/// A blinds entry.
#[derive(Debug, Clone, PartialEq, Eq)]
pub struct ProjectJalousie {
    pub number: u32,
    pub name: String,
}

/// An empty channel slot.
#[derive(Debug, Clone, PartialEq, Eq)]
pub struct ProjectNone {
    pub number: u32,
    pub name: String,
}

/// A project item, discriminated on the wire by its `TYPE` string.
#[derive(Debug, Clone, PartialEq, Eq)]
pub enum ProjectItem {
    Scene(ProjectScene),
    Binaer(ProjectBinaer),
    Dimmer(ProjectDimmer),
    Jalousie(ProjectJalousie),
    NoneItem(ProjectNone),
}

/// A project item's kind, without its body.
#[derive(Debug, Clone, Copy, PartialEq, Eq, Structural)]
pub enum ProjectItemKind {
    Scene,
    Binaer,
    Dimmer,
    Jalousie,
    NoneItem,
}

/// The abstract content of a project item.
pub enum ProjectItemView {
    Scene { number: u32, name: Seq<char>, dimmable: bool },
    Binaer { number: u32, name: Seq<char>, programmable: bool },
    Dimmer { number: u32, name: Seq<char> },
    Jalousie { number: u32, name: Seq<char> },
    NoneItem { number: u32, name: Seq<char> },
}

impl View for ProjectItem {
    type V = ProjectItemView;

    open spec fn view(&self) -> ProjectItemView {
        match self {
            ProjectItem::Scene(v) => ProjectItemView::Scene {
                number: v.number,
                name: v.name@,
                dimmable: v.dimmable,
            },
            ProjectItem::Binaer(v) => ProjectItemView::Binaer {
                number: v.number,
                name: v.name@,
                programmable: v.programmable,
            },
            ProjectItem::Dimmer(v) => ProjectItemView::Dimmer { number: v.number, name: v.name@ },
            ProjectItem::Jalousie(v) => ProjectItemView::Jalousie {
                number: v.number,
                name: v.name@,
            },
            ProjectItem::NoneItem(v) => ProjectItemView::NoneItem {
                number: v.number,
                name: v.name@,
            },
        }
    }
}

impl ProjectItem {
    /// The kind this item belongs to.
    pub open spec fn kind_spec(&self) -> ProjectItemKind {
        match self {
            ProjectItem::Scene(_) => ProjectItemKind::Scene,
            ProjectItem::Binaer(_) => ProjectItemKind::Binaer,
            ProjectItem::Dimmer(_) => ProjectItemKind::Dimmer,
            ProjectItem::Jalousie(_) => ProjectItemKind::Jalousie,
            ProjectItem::NoneItem(_) => ProjectItemKind::NoneItem,
        }
    }

    pub fn kind(&self) -> (r: ProjectItemKind)
        ensures
            r == self.kind_spec(),
    {
        match self {
            ProjectItem::Scene(_) => ProjectItemKind::Scene,
            ProjectItem::Binaer(_) => ProjectItemKind::Binaer,
            ProjectItem::Dimmer(_) => ProjectItemKind::Dimmer,
            ProjectItem::Jalousie(_) => ProjectItemKind::Jalousie,
            ProjectItem::NoneItem(_) => ProjectItemKind::NoneItem,
        }
    }
}

/// What every project item offers: a number, a display name, and whether
/// updates can be subscribed for it.
pub trait EnetItem {
    /// The item's channel number.
    spec fn spec_number(&self) -> u32;

    /// The item's display name.
    spec fn spec_name(&self) -> Seq<char>;

    /// Whether the item takes part in value subscriptions.
    spec fn spec_subscribable(&self) -> bool;

    fn number(&self) -> (r: u32)
        ensures
            r == self.spec_number(),
    ;

    fn name(&self) -> (r: &str)
        ensures
            r@ == self.spec_name(),
    ;

    fn is_subscribable(&self) -> (r: bool)
        ensures
            r == self.spec_subscribable(),
    ;
}

impl EnetItem for ProjectScene {
    open spec fn spec_number(&self) -> u32 {
        self.number
    }

    open spec fn spec_name(&self) -> Seq<char> {
        self.name@
    }

    open spec fn spec_subscribable(&self) -> bool {
        false
    }

    fn number(&self) -> (r: u32) {
        self.number
    }

    fn name(&self) -> (r: &str) {
        self.name.as_str()
    }

    fn is_subscribable(&self) -> (r: bool) {
        false
    }
}

impl EnetItem for ProjectBinaer {
    open spec fn spec_number(&self) -> u32 {
        self.number
    }

    open spec fn spec_name(&self) -> Seq<char> {
        self.name@
    }

    open spec fn spec_subscribable(&self) -> bool {
        self.programmable
    }

    fn number(&self) -> (r: u32) {
        self.number
    }

    fn name(&self) -> (r: &str) {
        self.name.as_str()
    }

    fn is_subscribable(&self) -> (r: bool) {
        self.programmable
    }
}

impl EnetItem for ProjectDimmer {
    open spec fn spec_number(&self) -> u32 {
        self.number
    }

    open spec fn spec_name(&self) -> Seq<char> {
        self.name@
    }

    open spec fn spec_subscribable(&self) -> bool {
        true
    }

    fn number(&self) -> (r: u32) {
        self.number
    }

    fn name(&self) -> (r: &str) {
        self.name.as_str()
    }

    fn is_subscribable(&self) -> (r: bool) {
        true
    }
}

impl EnetItem for ProjectJalousie {
    open spec fn spec_number(&self) -> u32 {
        self.number
    }

    open spec fn spec_name(&self) -> Seq<char> {
        self.name@
    }

    open spec fn spec_subscribable(&self) -> bool {
        true
    }

    fn number(&self) -> (r: u32) {
        self.number
    }

    fn name(&self) -> (r: &str) {
        self.name.as_str()
    }

    fn is_subscribable(&self) -> (r: bool) {
        true
    }
}

impl EnetItem for ProjectNone {
    open spec fn spec_number(&self) -> u32 {
        self.number
    }

    open spec fn spec_name(&self) -> Seq<char> {
        self.name@
    }

    open spec fn spec_subscribable(&self) -> bool {
        false
    }

    fn number(&self) -> (r: u32) {
        self.number
    }

    fn name(&self) -> (r: &str) {
        self.name.as_str()
    }

    fn is_subscribable(&self) -> (r: bool) {
        false
    }
}

impl EnetItem for ProjectItem {
    open spec fn spec_number(&self) -> u32 {
        match self {
            ProjectItem::Scene(v) => v.number,
            ProjectItem::Binaer(v) => v.number,
            ProjectItem::Dimmer(v) => v.number,
            ProjectItem::Jalousie(v) => v.number,
            ProjectItem::NoneItem(v) => v.number,
        }
    }

    open spec fn spec_name(&self) -> Seq<char> {
        match self {
            ProjectItem::Scene(v) => v.name@,
            ProjectItem::Binaer(v) => v.name@,
            ProjectItem::Dimmer(v) => v.name@,
            ProjectItem::Jalousie(v) => v.name@,
            ProjectItem::NoneItem(v) => v.name@,
        }
    }

    open spec fn spec_subscribable(&self) -> bool {
        match self {
            ProjectItem::Scene(_) => false,
            ProjectItem::Binaer(v) => v.programmable,
            ProjectItem::Dimmer(_) => true,
            ProjectItem::Jalousie(_) => true,
            ProjectItem::NoneItem(_) => false,
        }
    }

    fn number(&self) -> (r: u32) {
        match self {
            ProjectItem::Scene(v) => v.number,
            ProjectItem::Binaer(v) => v.number,
            ProjectItem::Dimmer(v) => v.number,
            ProjectItem::Jalousie(v) => v.number,
            ProjectItem::NoneItem(v) => v.number,
        }
    }

    fn name(&self) -> (r: &str) {
        match self {
            ProjectItem::Scene(v) => v.name.as_str(),
            ProjectItem::Binaer(v) => v.name.as_str(),
            ProjectItem::Dimmer(v) => v.name.as_str(),
            ProjectItem::Jalousie(v) => v.name.as_str(),
            ProjectItem::NoneItem(v) => v.name.as_str(),
        }
    }

    fn is_subscribable(&self) -> (r: bool) {
        match self {
            ProjectItem::Scene(_) => false,
            ProjectItem::Binaer(v) => v.programmable,
            ProjectItem::Dimmer(_) => true,
            ProjectItem::Jalousie(_) => true,
            ProjectItem::NoneItem(_) => false,
        }
    }
}

/// A room list from the project: a name and the ordered item numbers in it.
#[derive(Debug, Clone, PartialEq, Eq)]
pub struct ProjectList {
    pub number: u32,
    pub name: String,
    pub items_order: Vec<u32>,
    pub visible: bool,
}

/// The abstract content of a room list.
pub struct ProjectListView {
    pub number: u32,
    pub name: Seq<char>,
    pub items_order: Seq<u32>,
    pub visible: bool,
}

impl View for ProjectList {
    type V = ProjectListView;

    open spec fn view(&self) -> ProjectListView {
        ProjectListView {
            number: self.number,
            name: self.name@,
            items_order: self.items_order@,
            visible: self.visible,
        }
    }
}

/// A field holding a string.
pub open spec fn field_str_of(fs: Seq<(String, JsonVal)>, key: Seq<char>) -> Option<Seq<char>> {
    match obj_get_spec(fs, key) {
        Some(x) => x.str_of(),
        None => None,
    }
}

/// A field holding a number that fits a `u32`.
pub open spec fn field_u32_of(fs: Seq<(String, JsonVal)>, key: Seq<char>) -> Option<u32> {
    match obj_get_spec(fs, key) {
        Some(x) => x.u32_of(),
        None => None,
    }
}

/// A field holding a boolean.
pub open spec fn field_bool_of(fs: Seq<(String, JsonVal)>, key: Seq<char>) -> Option<bool> {
    match obj_get_spec(fs, key) {
        Some(x) => x.bool_of(),
        None => None,
    }
}

/// The `PROGRAMMABLE` flag: absent means true; a boolean is taken as is; the
/// strings `true` and `false` count regardless of ASCII case.
pub open spec fn programmable_of(fs: Seq<(String, JsonVal)>) -> Option<bool> {
    match obj_get_spec(fs, "PROGRAMMABLE"@) {
        None => Some(true),
        Some(JsonVal::Bool(b)) => Some(b),
        Some(JsonVal::Str(s)) => if seq_ci_eq(s@, "true"@) {
            Some(true)
        } else if seq_ci_eq(s@, "false"@) {
            Some(false)
        } else {
            None
        },
        Some(_) => None,
    }
}

/// What a project item denotes, by its `TYPE` tag; an unknown or missing
/// tag, or a malformed body, denotes nothing.
pub open spec fn project_item_of(v: JsonVal) -> Option<ProjectItemView> {
    match v {
        JsonVal::Obj(fs) => match field_str_of(fs@, "TYPE"@) {
            Some(t) => {
                let num = field_u32_of(fs@, "NUMBER"@);
                let name = field_str_of(fs@, "NAME"@);
                if t == "SCENE"@ || t == "Scene"@ {
                    match (num, name, field_bool_of(fs@, "DIMMABLE"@)) {
                        (Some(n), Some(nm), Some(d)) => Some(
                            ProjectItemView::Scene { number: n, name: nm, dimmable: d },
                        ),
                        _ => None,
                    }
                } else if t == "BINAER"@ {
                    match (num, name, programmable_of(fs@)) {
                        (Some(n), Some(nm), Some(p)) => Some(
                            ProjectItemView::Binaer { number: n, name: nm, programmable: p },
                        ),
                        _ => None,
                    }
                } else if t == "DIMMER"@ {
                    match (num, name) {
                        (Some(n), Some(nm)) => Some(
                            ProjectItemView::Dimmer { number: n, name: nm },
                        ),
                        _ => None,
                    }
                } else if t == "JALOUSIE"@ {
                    match (num, name) {
                        (Some(n), Some(nm)) => Some(
                            ProjectItemView::Jalousie { number: n, name: nm },
                        ),
                        _ => None,
                    }
                } else if t == "NONE"@ {
                    match (num, name) {
                        (Some(n), Some(nm)) => Some(
                            ProjectItemView::NoneItem { number: n, name: nm },
                        ),
                        _ => None,
                    }
                } else {
                    None
                }
            },
            None => None,
        },
        _ => None,
    }
}

/// A sequence of numbers that each fit a `u32`.
pub open spec fn u32_seq_of(elems: Seq<JsonVal>) -> Option<Seq<u32>>
    decreases elems.len(),
{
    if elems.len() == 0 {
        Some(Seq::empty())
    } else {
        match (u32_seq_of(elems.drop_last()), elems.last().u32_of()) {
            (Some(t), Some(n)) => Some(t + seq![n]),
            _ => None,
        }
    }
}

/// What a room list denotes: `ITEMS_ORDER` defaults to empty when absent.
pub open spec fn project_list_of(v: JsonVal) -> Option<ProjectListView> {
    match v {
        JsonVal::Obj(fs) => {
            let order = match obj_get_spec(fs@, "ITEMS_ORDER"@) {
                None => Some(Seq::<u32>::empty()),
                Some(JsonVal::Arr(es)) => u32_seq_of(es@),
                Some(_) => None,
            };
            match (field_u32_of(fs@, "NUMBER"@), field_str_of(fs@, "NAME"@), order, field_bool_of(
                fs@,
                "VISIBLE"@,
            )) {
                (Some(n), Some(nm), Some(o), Some(vis)) => Some(
                    ProjectListView { number: n, name: nm, items_order: o, visible: vis },
                ),
                _ => None,
            }
        },
        _ => None,
    }
}

/// Parse an array of `u32` numbers.
pub fn parse_u32_array(elems: &Vec<JsonVal>) -> (r: Option<Vec<u32>>)
    ensures
        match r {
            Some(out) => u32_seq_of(elems@) == Some(out@),
            None => u32_seq_of(elems@) is None,
        },
{
    let mut out: Vec<u32> = Vec::new();
    let mut i: usize = 0;
    proof {
        assert(elems@.take(0) =~= Seq::<JsonVal>::empty());
    }
    while i < elems.len()
        invariant
            i <= elems@.len(),
            u32_seq_of(elems@.take(i as int)) == Some(out@),
        decreases elems@.len() - i,
    {
        proof {
            assert(elems@.take(i + 1).drop_last() =~= elems@.take(i as int));
            assert(elems@.take(i + 1).last() == elems@[i as int]);
        }
        match elems[i].as_u32() {
            Some(n) => {
                out.push(n);
            },
            None => {
                proof {
                    lemma_u32_seq_of_prefix_none(elems@, i as int + 1);
                }
                return None;
            },
        }
        i = i + 1;
    }
    proof {
        assert(elems@.take(elems@.len() as int) =~= elems@);
    }
    Some(out)
}

/// Once a prefix fails to parse as numbers, the whole sequence does.
proof fn lemma_u32_seq_of_prefix_none(elems: Seq<JsonVal>, n: int)
    requires
        0 <= n <= elems.len(),
        u32_seq_of(elems.take(n)) is None,
    ensures
        u32_seq_of(elems) is None,
    decreases elems.len() - n,
{
    if n < elems.len() {
        assert(elems.take(n + 1).drop_last() =~= elems.take(n));
        lemma_u32_seq_of_prefix_none(elems, n + 1);
    } else {
        assert(elems.take(n) =~= elems);
    }
}

/// Parse one project item.
pub fn parse_project_item(v: &JsonVal) -> (r: Option<ProjectItem>)
    ensures
        match r {
            Some(it) => project_item_of(*v) == Some(it@),
            None => project_item_of(*v) is None,
        },
{
    match v {
        JsonVal::Obj(fs) => {
            let ty = match obj_get(fs, "TYPE") {
                Some(x) => x.as_string(),
                None => None,
            };
            let ty = match ty {
                Some(t) => t,
                None => {
                    return None;
                },
            };
            let num = match obj_get(fs, "NUMBER") {
                Some(x) => x.as_u32(),
                None => None,
            };
            let name = match obj_get(fs, "NAME") {
                Some(x) => x.as_string(),
                None => None,
            };
            if str_eq(ty.as_str(), "SCENE") || str_eq(ty.as_str(), "Scene") {
                let dim = match obj_get(fs, "DIMMABLE") {
                    Some(x) => x.as_bool(),
                    None => None,
                };
                match (num, name, dim) {
                    (Some(n), Some(nm), Some(d)) => Some(
                        ProjectItem::Scene(ProjectScene { number: n, name: nm, dimmable: d }),
                    ),
                    _ => None,
                }
            } else if str_eq(ty.as_str(), "BINAER") {
                let prog = parse_programmable(fs);
                match (num, name, prog) {
                    (Some(n), Some(nm), Some(p)) => Some(
                        ProjectItem::Binaer(
                            ProjectBinaer { number: n, name: nm, programmable: p },
                        ),
                    ),
                    _ => None,
                }
            } else if str_eq(ty.as_str(), "DIMMER") {
                match (num, name) {
                    (Some(n), Some(nm)) => Some(
                        ProjectItem::Dimmer(ProjectDimmer { number: n, name: nm }),
                    ),
                    _ => None,
                }
            } else if str_eq(ty.as_str(), "JALOUSIE") {
                match (num, name) {
                    (Some(n), Some(nm)) => Some(
                        ProjectItem::Jalousie(ProjectJalousie { number: n, name: nm }),
                    ),
                    _ => None,
                }
            } else if str_eq(ty.as_str(), "NONE") {
                match (num, name) {
                    (Some(n), Some(nm)) => Some(
                        ProjectItem::NoneItem(ProjectNone { number: n, name: nm }),
                    ),
                    _ => None,
                }
            } else {
                None
            }
        },
        _ => None,
    }
}

/// Read the `PROGRAMMABLE` flag.
fn parse_programmable(fs: &Vec<(String, JsonVal)>) -> (r: Option<bool>)
    ensures
        r == programmable_of(fs@),
{
    match obj_get(fs, "PROGRAMMABLE") {
        None => Some(true),
        Some(x) => match x {
            JsonVal::Bool(b) => Some(*b),
            JsonVal::Str(s) => if str_eq_ci(s.as_str(), "true") {
                Some(true)
            } else if str_eq_ci(s.as_str(), "false") {
                Some(false)
            } else {
                None
            },
            _ => None,
        },
    }
}

/// Parse one room list.
pub fn parse_project_list(v: &JsonVal) -> (r: Option<ProjectList>)
    ensures
        match r {
            Some(l) => project_list_of(*v) == Some(l@),
            None => project_list_of(*v) is None,
        },
{
    match v {
        JsonVal::Obj(fs) => {
            let num = match obj_get(fs, "NUMBER") {
                Some(x) => x.as_u32(),
                None => None,
            };
            let name = match obj_get(fs, "NAME") {
                Some(x) => x.as_string(),
                None => None,
            };
            let order = match obj_get(fs, "ITEMS_ORDER") {
                None => Some(Vec::new()),
                Some(x) => match x {
                    JsonVal::Arr(es) => parse_u32_array(es),
                    _ => None,
                },
            };
            let vis = match obj_get(fs, "VISIBLE") {
                Some(x) => x.as_bool(),
                None => None,
            };
            match (num, name, order, vis) {
                (Some(n), Some(nm), Some(o), Some(vi)) => Some(
                    ProjectList { number: n, name: nm, items_order: o, visible: vi },
                ),
                _ => None,
            }
        },
        _ => None,
    }
}

} // verus!
