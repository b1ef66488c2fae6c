//! The route tree of a specification file and the Rust source rendered
//! from it.
use vstd::prelude::*;

use crate::codegen::{spec_as_type, spec_render_id, render_id, BasicType, BasicTypeView, CodegenError};
use crate::sort::{lemma_insert_at, lemma_sorted_by_permutes, spec_sorted_by};
use crate::status::XapVersion;
use crate::text::{
    chars_to_string, lemma_contains_middle, push_decimal, push_str, spec_contains_text,
    spec_decimal, spec_to_case, to_case, TextCase,
};

verus! {

/// A member of a struct type: its name and type.
#[derive(Debug)]
pub struct StructMember {
    pub name: String,
    pub member_type: BasicType,
}

/// Whether a route groups other routes or is a request of its own.
#[derive(Debug, Clone, Copy, PartialEq, Eq, Structural)]
pub enum RouteType {
    Router,
    Command,
}

/// A route of the specification, with the routes below it by id byte,
/// ascending.
#[derive(Debug)]
pub struct Route {
    pub id: Vec<u8>,
    pub xap_version: Option<XapVersion>,
    pub name: Option<String>,
    pub description: Option<String>,
    pub route_type: Option<RouteType>,
    pub routes: Vec<(u8, Route)>,
    pub return_type: BasicType,
    pub return_struct_members: Vec<StructMember>,
    pub return_purpose: Option<String>,
    pub request_type: BasicType,
    pub request_struct_members: Vec<StructMember>,
}

/// A named type of the specification.
#[derive(Debug)]
pub struct TypeDefinition {
    pub name: String,
    pub description: String,
    pub def_type: BasicType,
    pub struct_length: Option<usize>,
    pub struct_members: Vec<StructMember>,
}

/// A broadcast message that a specification describes.
#[derive(Debug)]
pub struct BroadcastMessage {
    pub name: String,
    pub description: String,
}

/// A specification file: its version, its routes by id byte, ascending, its
/// broadcast messages by key when it lists any, and its named types.
#[derive(Debug)]
pub struct Spec {
    pub version: XapVersion,
    pub routes: Vec<(u8, Route)>,
    pub broadcast_messages: Option<Vec<(String, BroadcastMessage)>>,
    pub type_definitions: Vec<(String, TypeDefinition)>,
}

/// The broadcast messages of a specification, as plain sequences.
pub open spec fn spec_messages(m: Option<Vec<(String, BroadcastMessage)>>) -> Option<
    Seq<(String, BroadcastMessage)>,
> {
    match m {
        Some(v) => Some(v@),
        None => None,
    }
}

/// The broadcast messages after a merge: those of `other` stored after
/// those of `old`, replacing those of the same key; `old`'s when `other`
/// lists none.
pub open spec fn spec_messages_merged(
    old: Option<Seq<(String, BroadcastMessage)>>,
    other: Option<Seq<(String, BroadcastMessage)>>,
) -> Option<Seq<(String, BroadcastMessage)>> {
    match other {
        None => old,
        Some(m) => match old {
            Some(e) => Some(spec_extend(e, m)),
            None => Some(m),
        },
    }
}

/// Every route of the tree can be rendered: it has a type and a name, a
/// command also a description and a version, and a non-empty id.
pub open spec fn spec_renderable(r: Route) -> bool
    decreases r,
{
    &&& r.route_type is Some
    &&& r.name is Some
    &&& r.id@.len() > 0
    &&& r.route_type == Some(RouteType::Command) ==> r.description is Some && r.xap_version is Some
    &&& forall|i: int| 0 <= i < r.routes@.len() ==> spec_renderable(#[trigger] r.routes@[i].1)
}

/// Every route of a list can be rendered.
pub open spec fn spec_all_renderable(routes: Seq<(u8, Route)>) -> bool {
    forall|i: int| 0 <= i < routes.len() ==> spec_renderable(#[trigger] routes[i].1)
}

/// The snake case name of a route.
pub open spec fn spec_snake_name(r: Route) -> Seq<char> {
    spec_to_case(r.name->0@, TextCase::Snake)
}

/// The module the routes under the innermost router of `path` go into: its
/// snake case name, or nothing at the top.
pub open spec fn spec_current_module(path: Seq<Route>) -> Seq<char> {
    if path.len() == 0 {
        Seq::empty()
    } else {
        spec_snake_name(path.last())
    }
}

/// The module path of `path`: the snake case names joined by `::`.
pub open spec fn spec_full_module_path(path: Seq<Route>) -> Seq<char>
    decreases path.len(),
{
    if path.len() == 0 {
        Seq::empty()
    } else if path.len() == 1 {
        spec_snake_name(path[0])
    } else {
        spec_full_module_path(path.drop_last()) + "::"@ + spec_snake_name(path.last())
    }
}

/// `s` with every occurrence of `pat` replaced by `with`, scanning left to right.
pub open spec fn spec_replace_all(s: Seq<char>, pat: Seq<char>, with: Seq<char>) -> Seq<char>
    decreases s.len(),
{
    if pat.len() == 0 || s.len() < pat.len() {
        s
    } else if s.subrange(0, pat.len() as int) == pat {
        with + spec_replace_all(s.subrange(pat.len() as int, s.len() as int), pat, with)
    } else {
        seq![s[0]] + spec_replace_all(s.drop_first(), pat, with)
    }
}

fn replace_all(s: &Vec<char>, pat: &str, with: &str) -> (r: Vec<char>)
    ensures
        r@ == spec_replace_all(s@, pat@, with@),
{
    let p = crate::text::str_chars(pat);
    let w = crate::text::str_chars(with);
    let mut out: Vec<char> = Vec::new();
    let n = s.len();
    assert(s@.subrange(0, n as int) =~= s@);
    if p.len() == 0 {
        let mut k: usize = 0;
        while k < n
            invariant
                k <= n == s@.len(),
                out@ == s@.subrange(0, k as int),
            decreases n - k,
        {
            out.push(s[k]);
            k = k + 1;
            assert(out@ =~= s@.subrange(0, k as int));
        }
        return out;
    }
    let mut i: usize = 0;
    while i < n
        invariant
            i <= n == s@.len(),
            p@ == pat@,
            w@ == with@,
            p@.len() > 0,
            spec_replace_all(s@, pat@, with@) == out@ + spec_replace_all(
                s@.subrange(i as int, n as int),
                pat@,
                with@,
            ),
        decreases n - i,
    {
        let ghost t = s@.subrange(i as int, n as int);
        let mut matches = n - i >= p.len();
        if matches {
            let mut j: usize = 0;
            while j < p.len()
                invariant
                    j <= p@.len(),
                    i + p@.len() <= n == s@.len(),
                    matches == (forall|x: int| 0 <= x < j ==> s@[i + x] == p@[x]),
                decreases p@.len() - j,
            {
                if s[i + j] != p[j] {
                    matches = false;
                }
                j = j + 1;
            }
            proof {
                if matches {
                    assert(t.subrange(0, p@.len() as int) =~= p@);
                } else {
                    let x = choose|x: int| 0 <= x < p@.len() && s@[i + x] != p@[x];
                    assert(t.subrange(0, p@.len() as int)[x] != p@[x]);
                }
            }
        }
        let ghost before = out@;
        if matches {
            let mut k: usize = 0;
            while k < w.len()
                invariant
                    k <= w@.len(),
                    out@ == before + w@.subrange(0, k as int),
                decreases w@.len() - k,
            {
                out.push(w[k]);
                k = k + 1;
                assert(out@ =~= before + w@.subrange(0, k as int));
            }
            proof {
                assert(w@.subrange(0, w@.len() as int) =~= w@);
                assert(t.subrange(p@.len() as int, t.len() as int) =~= s@.subrange(
                    i + p@.len(),
                    n as int,
                ));
                assert(before + (w@ + spec_replace_all(
                    t.subrange(p@.len() as int, t.len() as int),
                    pat@,
                    with@,
                )) =~= out@ + spec_replace_all(s@.subrange(i + p@.len(), n as int), pat@, with@));
            }
            i = i + p.len();
        } else {
            out.push(s[i]);
            proof {
                assert(t.drop_first() =~= s@.subrange(i + 1, n as int));
                assert(before + (seq![t[0]] + spec_replace_all(t.drop_first(), pat@, with@))
                    =~= out@ + spec_replace_all(t.drop_first(), pat@, with@));
            }
            i = i + 1;
        }
    }
    assert(s@.subrange(n as int, n as int) =~= Seq::<char>::empty());
    assert(out@ + Seq::<char>::empty() =~= out@);
    out
}

fn push_string(out: &mut Vec<char>, s: &String)
    ensures
        final(out)@ == old(out)@ + s@,
{
    push_str(out, s.as_str());
}

fn push_chars(out: &mut Vec<char>, s: &Vec<char>)
    ensures
        final(out)@ == old(out)@ + s@,
{
    let ghost start = out@;
    let mut i: usize = 0;
    while i < s.len()
        invariant
            i <= s@.len(),
            out@ == start + s@.subrange(0, i as int),
        decreases s@.len() - i,
    {
        out.push(s[i]);
        i = i + 1;
        assert(out@ =~= start + s@.subrange(0, i as int));
    }
    assert(s@.subrange(0, s@.len() as int) =~= s@);
}

fn snake_name(r: &Route) -> (s: String)
    requires
        r.name is Some,
    ensures
        s@ == spec_snake_name(*r),
{
    match &r.name {
        Some(n) => to_case(n.as_str(), TextCase::Snake),
        None => String::new(),
    }
}

/// The module of the innermost router of `path`.
pub fn current_module(path: &Vec<&Route>) -> (r: String)
    requires
        path@.len() > 0 ==> path@.last().name is Some,
    ensures
        r@ == spec_current_module(path@.map_values(|x: &Route| *x)),
{
    let ghost p = path@.map_values(|x: &Route| *x);
    if path.len() == 0 {
        assert(p.len() == 0);
        String::new()
    } else {
        let last = path[path.len() - 1];
        assert(p.last() == *last);
        snake_name(last)
    }
}

/// The module path of `path`.
pub fn full_module_path(path: &Vec<&Route>) -> (r: String)
    requires
        forall|i: int| 0 <= i < path@.len() ==> (#[trigger] path@[i]).name is Some,
    ensures
        r@ == spec_full_module_path(path@.map_values(|x: &Route| *x)),
{
    let ghost p = path@.map_values(|x: &Route| *x);
    let mut out: Vec<char> = Vec::new();
    let mut i: usize = 0;
    assert(p.subrange(0, 0).len() == 0);
    while i < path.len()
        invariant
            i <= path@.len(),
            p == path@.map_values(|x: &Route| *x),
            forall|k: int| 0 <= k < path@.len() ==> (#[trigger] path@[k]).name is Some,
            out@ == spec_full_module_path(p.subrange(0, i as int)),
        decreases path@.len() - i,
    {
        let ghost before = out@;
        if i > 0 {
            push_str(&mut out, "::");
        }
        let name = snake_name(path[i]);
        push_string(&mut out, &name);
        proof {
            let q = p.subrange(0, i + 1);
            assert(q.drop_last() =~= p.subrange(0, i as int));
            assert(q.last() == *path@[i as int]);
            if i == 0 {
                assert(out@ =~= spec_snake_name(q[0]));
            } else {
                assert(out@ =~= before + "::"@ + spec_snake_name(q.last()));
            }
        }
        i = i + 1;
    }
    assert(p.subrange(0, path@.len() as int) =~= p);
    chars_to_string(out)
}

/// The lines of a struct's members: `    pub <snake name>: <type>,` each.
pub open spec fn spec_member_lines(members: Seq<StructMember>) -> Seq<char>
    decreases members.len(),
{
    if members.len() == 0 {
        Seq::empty()
    } else {
        let m = members.last();
        spec_member_lines(members.drop_last()) + "    pub "@ + spec_to_case(m.name@, TextCase::Snake)
            + ": "@ + spec_as_type(m.member_type@) + ",\n"@
    }
}

fn push_member_lines(out: &mut Vec<char>, members: &Vec<StructMember>)
    ensures
        final(out)@ == old(out)@ + spec_member_lines(members@),
{
    let ghost start = out@;
    let mut i: usize = 0;
    assert(members@.subrange(0, 0) =~= Seq::<StructMember>::empty());
    assert(out@ =~= start + spec_member_lines(members@.subrange(0, 0)));
    while i < members.len()
        invariant
            i <= members@.len(),
            out@ == start + spec_member_lines(members@.subrange(0, i as int)),
        decreases members@.len() - i,
    {
        let ghost before = out@;
        let m = &members[i];
        push_str(out, "    pub ");
        let snake = to_case(m.name.as_str(), TextCase::Snake);
        push_string(out, &snake);
        push_str(out, ": ");
        let ty = m.member_type.as_type();
        push_string(out, &ty);
        push_str(out, ",\n");
        proof {
            let q = members@.subrange(0, i + 1);
            assert(q.drop_last() =~= members@.subrange(0, i as int));
            assert(q.last() == members@[i as int]);
            assert(out@ =~= start + spec_member_lines(q));
        }
        i = i + 1;
    }
    assert(members@.subrange(0, members@.len() as int) =~= members@);
}

/// Whether the specification defines a type of this name.
pub open spec fn spec_defines(defs: Seq<(String, TypeDefinition)>, name: Seq<char>) -> bool {
    exists|i: int| 0 <= i < defs.len() && #[trigger] defs[i].0@ == name
}

fn defines(defs: &Vec<(String, TypeDefinition)>, name: &String) -> (r: bool)
    ensures
        r == spec_defines(defs@, name@),
{
    let mut i: usize = 0;
    while i < defs.len()
        invariant
            i <= defs@.len(),
            forall|k: int| 0 <= k < i ==> (#[trigger] defs@[k]).0@ != name@,
        decreases defs@.len() - i,
    {
        if defs[i].0 == *name {
            return true;
        }
        i = i + 1;
    }
    false
}

/// The name a route's types are derived from: the current module and the route's name.
pub open spec fn spec_type_base(r: Route, path: Seq<Route>) -> Seq<char> {
    spec_current_module(path) + r.name->0@
}

/// The request type of a command: its name and, for a struct, its definition.
pub open spec fn spec_request_type(r: Route, path: Seq<Route>, defs: Seq<(String, TypeDefinition)>) -> Result<
    (Seq<char>, Seq<char>),
    CodegenError,
> {
    let name = spec_type_base(r, path);
    match r.request_type@ {
        BasicTypeView::Struct => {
            let struct_name = spec_to_case(name, TextCase::Pascal) + "Arg"@;
            Ok(
                (
                    struct_name,
                    "\n                    #[derive(BinWrite, Default, Debug, Clone, Serialize, Deserialize, Type)]\n                    pub struct "@
                        + struct_name + " {\n                    "@ + spec_member_lines(
                        r.request_struct_members@,
                    ) + "}\n\n"@,
                ),
            )
        },
        BasicTypeView::Predefined(ty) => if spec_defines(defs, ty) {
            Ok((spec_to_case(ty, TextCase::Pascal), Seq::empty()))
        } else {
            Err(CodegenError::MissingTypeDefinition)
        },
        _ => Ok((spec_as_type(r.request_type@), Seq::empty())),
    }
}

/// The flag constants of a capabilities type, one per route of the level:
/// `const <Name> = 1 << <last id byte>;`.
pub open spec fn spec_capability_lines(routes: Seq<(u8, Route)>) -> Seq<char>
    decreases routes.len(),
{
    if routes.len() == 0 {
        Seq::empty()
    } else {
        let r = routes.last().1;
        spec_capability_lines(routes.drop_last()) + "const "@ + spec_to_case(
            r.name->0@,
            TextCase::UpperCamel,
        ) + " = 1 << "@ + spec_decimal(r.id@.last() as nat) + ";\n"@
    }
}

/// Whether a route answers with a capabilities bit set.
pub open spec fn spec_is_capabilities(r: Route) -> bool {
    r.return_purpose matches Some(p) && p@ == "capabilities"@
}

/// The return type of a command: its name and, unless it is a unit or a
/// predefined type, its definition. A capabilities route gets a bit set type
/// with one flag per route of its level: the top level for the enabled
/// subsystems route, else the level of the innermost router.
pub open spec fn spec_return_type(
    r: Route,
    path: Seq<Route>,
    top: Seq<(u8, Route)>,
    defs: Seq<(String, TypeDefinition)>,
) -> Result<(Seq<char>, Seq<char>), CodegenError> {
    let name = spec_type_base(r, path);
    if spec_is_capabilities(r) {
        let cname = spec_to_case(name, TextCase::Pascal);
        let ctype = spec_as_type(r.return_type@);
        let level = if r.id@ == seq![0u8, 2u8] {
            top
        } else {
            path.last().routes@
        };
        Ok(
            (
                cname,
                "\n                #[derive(BinRead, PartialEq, Eq, PartialOrd, Ord, Hash, Debug, Clone, Copy, Serialize, Type)]\n                pub struct "@
                    + cname + "("@ + ctype + ");\n\n                bitflags! {\n                impl "@ + cname
                    + ": "@ + ctype + " {\n                "@ + "\n"@ + spec_capability_lines(level)
                    + "}\n}\n"@ + "\n"@,
            ),
        )
    } else {
        match r.return_type@ {
            BasicTypeView::Unit => Ok(("()"@, Seq::empty())),
            BasicTypeView::Predefined(ty) => if spec_defines(defs, ty) {
                Ok((spec_to_case(ty, TextCase::Pascal), Seq::empty()))
            } else {
                Err(CodegenError::MissingTypeDefinition)
            },
            BasicTypeView::Struct => {
                let rname = spec_to_case(name, TextCase::Pascal) + "Response"@;
                Ok(
                    (
                        rname,
                        "\n                        #[derive(BinRead, Default, Debug, Clone, Serialize, Type)]\n                        pub struct "@
                            + rname + " {\n                        "@ + "\n"@ + spec_member_lines(
                            r.return_struct_members@,
                        ) + "}\n"@ + "\n"@,
                    ),
                )
            },
            _ => {
                let rname = spec_to_case(name, TextCase::Pascal) + "Response"@;
                Ok(
                    (
                        rname,
                        "\n                        #[derive(BinRead, Default, Debug, Clone, Serialize, Type)]\n                        pub struct "@
                            + rname + "(pub "@ + spec_as_type(r.return_type@)
                            + ");\n                        "@ + "\n"@,
                    ),
                )
            },
        }
    }
}

/// Every route of a level has a name and a non-empty id.
pub open spec fn spec_level_renderable(routes: Seq<(u8, Route)>) -> bool {
    forall|i: int|
        0 <= i < routes.len() ==> (#[trigger] routes[i]).1.name is Some && routes[i].1.id@.len() > 0
}

fn push_capability_lines(out: &mut Vec<char>, routes: &Vec<(u8, Route)>)
    requires
        spec_level_renderable(routes@),
    ensures
        final(out)@ == old(out)@ + spec_capability_lines(routes@),
{
    let ghost start = out@;
    let mut i: usize = 0;
    assert(routes@.subrange(0, 0) =~= Seq::<(u8, Route)>::empty());
    assert(out@ =~= start + spec_capability_lines(routes@.subrange(0, 0)));
    while i < routes.len()
        invariant
            i <= routes@.len(),
            forall|k: int|
                0 <= k < routes@.len() ==> (#[trigger] routes@[k]).1.name is Some
                    && routes@[k].1.id@.len() > 0,
            out@ == start + spec_capability_lines(routes@.subrange(0, i as int)),
        decreases routes@.len() - i,
    {
        let r = &routes[i].1;
        push_str(out, "const ");
        match &r.name {
            Some(n) => {
                let c = to_case(n.as_str(), TextCase::UpperCamel);
                push_string(out, &c);
            },
            None => {},
        }
        push_str(out, " = 1 << ");
        let last = r.id[r.id.len() - 1];
        push_decimal(out, last as u64);
        push_str(out, ";\n");
        proof {
            let q = routes@.subrange(0, i + 1);
            assert(q.drop_last() =~= routes@.subrange(0, i as int));
            assert(q.last() == routes@[i as int]);
            assert(out@ =~= start + spec_capability_lines(q));
        }
        i = i + 1;
    }
    assert(routes@.subrange(0, routes@.len() as int) =~= routes@);
}


/// The flag line of one route of a capabilities level.
pub open spec fn spec_flag_line(name: Seq<char>, bit: u8) -> Seq<char> {
    "const "@ + spec_to_case(name, TextCase::UpperCamel) + " = 1 << "@ + spec_decimal(bit as nat) + ";\n"@
}

/// Every route of a capabilities level gets a flag whose bit is the last
/// byte of the route's id: the rendered flags hold
/// `const <Name> = 1 << <last id byte>;` for each route.
pub proof fn law_capability_bit_is_last_id_byte(routes: Seq<(u8, Route)>, k: int)
    requires
        0 <= k < routes.len(),
    ensures
        spec_contains_text(
            spec_capability_lines(routes),
            spec_flag_line(routes[k].1.name->0@, routes[k].1.id@.last()),
        ),
    decreases routes.len(),
{
    let n = routes.len();
    let before = spec_capability_lines(routes.drop_last());
    let line = spec_flag_line(routes[n - 1].1.name->0@, routes[n - 1].1.id@.last());
    assert(routes.last() == routes[n - 1]);
    assert(spec_capability_lines(routes) =~= before + line);
    if k == n - 1 {
        lemma_contains_middle(before, line, Seq::empty());
        assert(before + line + Seq::<char>::empty() =~= before + line);
    } else {
        assert(routes.drop_last()[k] == routes[k]);
        law_capability_bit_is_last_id_byte(routes.drop_last(), k);
        let m = spec_flag_line(routes[k].1.name->0@, routes[k].1.id@.last());
        let i = choose|i: int|
            0 <= i && i + m.len() <= before.len() && #[trigger] before.subrange(i, i + m.len()) == m;
        assert((before + line).subrange(i, i + m.len()) =~= before.subrange(i, i + m.len()));
    }
}

/// The part of a command route's text before its tauri command: a doc
/// comment with its name and description, the request struct with its
/// `XAPRequest` impl (id and version), and the response type.
pub open spec fn spec_command_head(
    command_name: Seq<char>,
    description: Seq<char>,
    name_pascal: Seq<char>,
    req_name: Seq<char>,
    req_text: Seq<char>,
    resp_name: Seq<char>,
    resp_text: Seq<char>,
    id: Seq<char>,
    version: Seq<char>,
) -> Seq<char> {
    "\n            /// ======================================================================\n            /// "@ + command_name + "\n            ///\n            /// "@ + description + "\n            /// ======================================================================\n            #[derive(BinWrite, Default, Debug, Clone, Serialize, Type)]\n            pub struct "@ + name_pascal + "Request(pub "@ + req_name + ");\n\n            "@ + req_text + "\n\n            impl XAPRequest for "@ + name_pascal + "Request {\n                type Response = "@ + resp_name + ";\n\n                fn id() -> &'static [u8] {\n                    &["@ + id + "]\n                }\n\n                fn xap_version() -> u32 {\n                    0x"@ + version + "\n                }\n            }\n\n            "@ + resp_text
}

/// The tauri command up to the request it sends: its signature, with an
/// `arg` parameter of the request type unless that is unit, and the call.
pub open spec fn spec_tauri_call_head(name_snake: Seq<char>, req_name: Seq<char>, resp_name: Seq<char>, unit: bool) -> Seq<char> {
    if unit {
        "\n                    #[cfg(feature = \"tauri-codegen\")]\n                    #[tauri::command]\n                    #[specta::specta]\n                    pub fn "@ + name_snake + "(\n                        id: Uuid,\n                        state: State<'_, Arc<Mutex<XAPClient>>>,\n                    ) -> ClientResult<"@ + resp_name + "> {\n                        state\n                            .lock()\n                            .query(id, "@
    } else {
        "\n                    #[cfg(feature = \"tauri-codegen\")]\n                    #[tauri::command]\n                    #[specta::specta]\n                    pub fn "@ + name_snake + "(\n                        id: Uuid,\n                        arg: "@ + req_name + ",\n                        state: State<'_, Arc<Mutex<XAPClient>>>,\n                    ) -> ClientResult<"@ + resp_name + "> {\n                        state\n                            .lock()\n                            .query(id, "@
    }
}

/// The text of a command route from its parts.
pub open spec fn spec_command_text(
    command_name: Seq<char>,
    description: Seq<char>,
    name_pascal: Seq<char>,
    name_snake: Seq<char>,
    req_name: Seq<char>,
    req_text: Seq<char>,
    resp_name: Seq<char>,
    resp_text: Seq<char>,
    id: Seq<char>,
    version: Seq<char>,
    unit: bool,
) -> Seq<char> {
    spec_command_head(
        command_name,
        description,
        name_pascal,
        req_name,
        req_text,
        resp_name,
        resp_text,
        id,
        version,
    ) + spec_tauri_call_head(name_snake, req_name, resp_name, unit) + name_pascal + (if unit {
        "Request(()))"@
    } else {
        "Request(arg))"@
    }) + "\n                    }\n                    "@ + "\n"@
}

/// The tauri command of a command route sends the request built from its
/// argument: the text holds `<Name>Request(arg))` for a request with a
/// type, and `<Name>Request(()))` for a unit request.
pub proof fn law_command_forwards_its_argument(
    command_name: Seq<char>,
    description: Seq<char>,
    name_pascal: Seq<char>,
    name_snake: Seq<char>,
    req_name: Seq<char>,
    req_text: Seq<char>,
    resp_name: Seq<char>,
    resp_text: Seq<char>,
    id: Seq<char>,
    version: Seq<char>,
    unit: bool,
)
    ensures
        !unit ==> spec_contains_text(
            spec_command_text(
                command_name,
                description,
                name_pascal,
                name_snake,
                req_name,
                req_text,
                resp_name,
                resp_text,
                id,
                version,
                unit,
            ),
            name_pascal + "Request(arg))"@,
        ),
        unit ==> spec_contains_text(
            spec_command_text(
                command_name,
                description,
                name_pascal,
                name_snake,
                req_name,
                req_text,
                resp_name,
                resp_text,
                id,
                version,
                unit,
            ),
            name_pascal + "Request(()))"@,
        ),
{
    let h = spec_command_head(
        command_name,
        description,
        name_pascal,
        req_name,
        req_text,
        resp_name,
        resp_text,
        id,
        version,
    ) + spec_tauri_call_head(name_snake, req_name, resp_name, unit);
    let m = name_pascal + (if unit {
        "Request(()))"@
    } else {
        "Request(arg))"@
    });
    let t = "\n                    }\n                    "@ + "\n"@;
    assert(spec_command_text(
        command_name,
        description,
        name_pascal,
        name_snake,
        req_name,
        req_text,
        resp_name,
        resp_text,
        id,
        version,
        unit,
    ) =~= h + m + t);
    lemma_contains_middle(h, m, t);
}

/// The source of a command route: a doc comment with its name and
/// description, the request struct, its `XAPRequest` impl with id and
/// version, the response type, and a tauri command that sends the request;
/// with the path of that command.
pub open spec fn spec_command(
    r: Route,
    path: Seq<Route>,
    top: Seq<(u8, Route)>,
    defs: Seq<(String, TypeDefinition)>,
) -> Result<(Seq<char>, Seq<char>), CodegenError> {
    match (spec_request_type(r, path, defs), spec_return_type(r, path, top, defs)) {
        (Err(e), _) => Err(e),
        (Ok(_), Err(e)) => Err(e),
        (Ok(req), Ok(resp)) => {
            Ok(
                (
                    spec_command_text(
                        r.name->0@,
                        spec_replace_all(r.description->0@, "\n"@, "\n/// "@),
                        spec_to_case(spec_type_base(r, path), TextCase::Pascal),
                        spec_to_case(spec_type_base(r, path), TextCase::Snake),
                        req.0,
                        req.1,
                        resp.0,
                        resp.1,
                        spec_render_id(r.id@),
                        XapVersion::spec_display(r.xap_version->0.spec_value()),
                        r.request_type@ is Unit,
                    ),
                    spec_full_module_path(path) + "::"@ + spec_to_case(spec_type_base(r, path), TextCase::Snake),
                ),
            )
        },
    }
}

/// The opening of the module of a router, named after the innermost router of `path`.
pub open spec fn spec_module_head(path: Seq<Route>) -> Seq<char> {
    "\n            #[allow(dead_code)]\n            #[allow(unused_imports)]\n            pub mod "@ + spec_current_module(path) + " {\n                use std::sync::Arc;\n\n                use binrw::{BinRead, BinWrite};\n                use bitflags::bitflags;\n                use parking_lot::Mutex;\n                use serde::{Serialize, Deserialize};\n                use specta::Type;\n                #[cfg(feature = \"tauri-codegen\")]\n                use tauri::State;\n                use uuid::Uuid;\n\n                use xap_specs::request::XAPRequest;\n                use xap_specs::response::UTF8String;\n                use crate::xap::hid::XAPClient;\n                use crate::xap::ClientResult;\n                use crate::xap_spec::types::*;\n            "@ + "\n"@
}

/// The closing of a router's module.
pub open spec fn spec_module_end() -> Seq<char> {
    "\n            }\n            "@ + "\n"@
}

/// The source of a route and everything below it, with the commands it
/// defines: a router opens a module for the routes below it; a command is
/// rendered, followed by the routes below it.
pub open spec fn spec_render_node(
    r: Route,
    path: Seq<Route>,
    top: Seq<(u8, Route)>,
    defs: Seq<(String, TypeDefinition)>,
) -> Result<(Seq<char>, Seq<Seq<char>>), CodegenError>
    decreases r, 0int,
{
    match r.route_type {
        Some(RouteType::Router) => {
            let inner = path.push(r);
            match spec_render_from(r.routes@, 0, inner, top, defs) {
                Ok((t, c)) => Ok((spec_module_head(inner) + t + spec_module_end(), c)),
                Err(e) => Err(e),
            }
        },
        Some(RouteType::Command) => match spec_command(r, path, top, defs) {
            Err(e) => Err(e),
            Ok((text, command)) => match spec_render_from(r.routes@, 0, path, top, defs) {
                Ok((t, c)) => Ok((text + t, seq![command] + c)),
                Err(e) => Err(e),
            },
        },
        None => Ok((Seq::empty(), Seq::empty())),
    }
}

/// The source of the routes of a level from position `i` on, in order.
pub open spec fn spec_render_from(
    routes: Seq<(u8, Route)>,
    i: int,
    path: Seq<Route>,
    top: Seq<(u8, Route)>,
    defs: Seq<(String, TypeDefinition)>,
) -> Result<(Seq<char>, Seq<Seq<char>>), CodegenError>
    decreases routes, routes.len() - i,
{
    if i < 0 || i >= routes.len() {
        Ok((Seq::empty(), Seq::empty()))
    } else {
        match spec_render_node(routes[i].1, path, top, defs) {
            Err(e) => Err(e),
            Ok((t, c)) => match spec_render_from(routes, i + 1, path, top, defs) {
                Err(e) => Err(e),
                Ok((t2, c2)) => Ok((t + t2, c + c2)),
            },
        }
    }
}

/// Whether every capabilities command of the tree that is not the enabled
/// subsystems route lies inside some router.
pub open spec fn spec_capabilities_placed(r: Route, inside_router: bool) -> bool
    decreases r,
{
    &&& (spec_is_capabilities(r) && r.id@ != seq![0u8, 2u8] ==> inside_router)
    &&& forall|i: int|
        0 <= i < r.routes@.len() ==> spec_capabilities_placed(
            #[trigger] r.routes@[i].1,
            inside_router || r.route_type == Some(RouteType::Router),
        )
}

/// The plain values of a list of strings.
pub open spec fn strings_view(s: Seq<String>) -> Seq<Seq<char>> {
    s.map_values(|x: String| x@)
}

/// The line of a named type's member: `    pub <snake name, type as r#type>: <type>,`.
pub open spec fn spec_typedef_member(m: StructMember) -> Seq<char> {
    "    pub "@ + spec_replace_all(spec_to_case(m.name@, TextCase::Snake), "type"@, "r#type"@) + ": "@
        + spec_as_type(m.member_type@) + ","@
}

/// The members of a named type that are not predefined types, one line each.
pub open spec fn spec_typedef_members(members: Seq<StructMember>) -> Seq<char>
    decreases members.len(),
{
    if members.len() == 0 {
        Seq::empty()
    } else {
        let before = spec_typedef_members(members.drop_last());
        let m = members.last();
        if m.member_type@ is Predefined {
            before
        } else if before.len() == 0 {
            spec_typedef_member(m)
        } else {
            before + "\n"@ + spec_typedef_member(m)
        }
    }
}

/// The struct definitions of the named struct types, in order.
pub open spec fn spec_typedefs(defs: Seq<(String, TypeDefinition)>) -> Seq<char>
    decreases defs.len(),
{
    if defs.len() == 0 {
        Seq::empty()
    } else {
        let last = defs.last();
        let before = spec_typedefs(defs.drop_last());
        if last.1.def_type@ is Struct {
            before + "\n                /// "@ + spec_replace_all(last.1.description@, "\n"@, "\n/// "@) + "\n                #[derive(BinRead, BinWrite, Default, Debug, Clone, Serialize, Deserialize, Type)]\n                pub struct "@
                + spec_to_case(last.0@, TextCase::Pascal) + " {\n                "@ + spec_typedef_members(
                last.1.struct_members@,
            ) + "\n                }\n                "@ + "\n"@
        } else {
            before
        }
    }
}

/// The lines that list the commands for the builder macro.
pub open spec fn spec_command_list(commands: Seq<Seq<char>>) -> Seq<char>
    decreases commands.len(),
{
    if commands.len() == 0 {
        Seq::empty()
    } else {
        let line = "                            crate::xap_spec::"@ + commands.last() + ","@;
        if commands.len() == 1 {
            line
        } else {
            spec_command_list(commands.drop_last()) + "\n"@ + line
        }
    }
}

/// The whole rendered file of a specification: its routes, the module of
/// named struct types, and the builder macro listing every command.
pub open spec fn spec_render_spec(spec: Spec) -> Result<(Seq<char>, Seq<Seq<char>>), CodegenError> {
    match spec_render_from(spec.routes@, 0, Seq::empty(), spec.routes@, spec.type_definitions@) {
        Err(e) => Err(e),
        Ok((t, c)) => Ok(
            (
                t + "pub mod types {\n                use binrw::{BinRead, BinWrite};\n                use serde::{Serialize, Deserialize};\n                use specta::Type;\n            "@ + "\n"@ + spec_typedefs(spec.type_definitions@) + "}"@ + "\n"@ + "\n            #[cfg(feature = \"tauri-codegen\")]\n            #[macro_export]\n            macro_rules! generate_specta_builder {\n                (commands: [$($command:ident),*], events: [$($event:ident),*]) => {{\n                    let specta_builder = tauri_specta::ts::builder()\n                        .commands(tauri_specta::collect_commands![\n"@
                    + spec_command_list(c) + "\n                            $($command),*\n                        ]).events(tauri_specta::collect_events![$($event),*]);\n\n                    specta_builder\n                }};\n            }\n            "@ + "\n"@,
                c,
            ),
        ),
    }
}

#[verifier::rlimit(40)]
fn command_text(
    command_name: &String,
    description: &Vec<char>,
    name_pascal: &String,
    name_snake: &String,
    req_name: &String,
    req_text: &String,
    resp_name: &String,
    resp_text: &String,
    id: &String,
    version: &String,
    unit: bool,
) -> (text: Vec<char>)
    ensures
        text@ == spec_command_text(
            command_name@,
            description@,
            name_pascal@,
            name_snake@,
            req_name@,
            req_text@,
            resp_name@,
            resp_text@,
            id@,
            version@,
            unit,
        ),
{
        let mut text: Vec<char> = Vec::new();
        push_str(&mut text, "\n            /// ======================================================================\n            /// ");
        push_string(&mut text, &command_name);
        push_str(&mut text, "\n            ///\n            /// ");
        push_chars(&mut text, &description);
        push_str(&mut text, "\n            /// ======================================================================\n            #[derive(BinWrite, Default, Debug, Clone, Serialize, Type)]\n            pub struct ");
        push_string(&mut text, &name_pascal);
        push_str(&mut text, "Request(pub ");
        push_string(&mut text, &req_name);
        push_str(&mut text, ");\n\n            ");
        push_string(&mut text, &req_text);
        push_str(&mut text, "\n\n            impl XAPRequest for ");
        push_string(&mut text, &name_pascal);
        push_str(&mut text, "Request {\n                type Response = ");
        push_string(&mut text, &resp_name);
        push_str(&mut text, ";\n\n                fn id() -> &'static [u8] {\n                    &[");
        push_string(&mut text, &id);
        push_str(&mut text, "]\n                }\n\n                fn xap_version() -> u32 {\n                    0x");
        push_string(&mut text, &version);
        push_str(&mut text, "\n                }\n            }\n\n            ");
        push_string(&mut text, &resp_text);
        if unit {
            push_str(&mut text, "\n                    #[cfg(feature = \"tauri-codegen\")]\n                    #[tauri::command]\n                    #[specta::specta]\n                    pub fn ");
            push_string(&mut text, &name_snake);
            push_str(&mut text, "(\n                        id: Uuid,\n                        state: State<'_, Arc<Mutex<XAPClient>>>,\n                    ) -> ClientResult<");
            push_string(&mut text, &resp_name);
            push_str(&mut text, "> {\n                        state\n                            .lock()\n                            .query(id, ");
            push_string(&mut text, &name_pascal);
            push_str(&mut text, "Request(()))");
            push_str(&mut text, "\n                    }\n                    ");
        } else {
            push_str(&mut text, "\n                    #[cfg(feature = \"tauri-codegen\")]\n                    #[tauri::command]\n                    #[specta::specta]\n                    pub fn ");
            push_string(&mut text, &name_snake);
            push_str(&mut text, "(\n                        id: Uuid,\n                        arg: ");
            push_string(&mut text, &req_name);
            push_str(&mut text, ",\n                        state: State<'_, Arc<Mutex<XAPClient>>>,\n                    ) -> ClientResult<");
            push_string(&mut text, &resp_name);
            push_str(&mut text, "> {\n                        state\n                            .lock()\n                            .query(id, ");
            push_string(&mut text, &name_pascal);
            push_str(&mut text, "Request(arg))");
            push_str(&mut text, "\n                    }\n                    ");
        }
        push_str(&mut text, "\n");
        assert(text@ =~= spec_command_text(
            command_name@,
            description@,
            name_pascal@,
            name_snake@,
            req_name@,
            req_text@,
            resp_name@,
            resp_text@,
            id@,
            version@,
            unit,
        ));
    text
}

fn pascal_name(base: &Vec<char>) -> (r: Vec<char>)
    ensures
        r@ == spec_to_case(base@, TextCase::Pascal),
{
    let s = chars_to_string(clone_chars(base));
    let p = to_case(s.as_str(), TextCase::Pascal);
    crate::text::str_chars(p.as_str())
}

fn clone_chars(s: &Vec<char>) -> (r: Vec<char>)
    ensures
        r@ == s@,
{
    let mut out: Vec<char> = Vec::new();
    push_chars(&mut out, s);
    assert(out@ =~= s@);
    out
}

fn type_base(r: &Route, path: &Vec<&Route>) -> (b: Vec<char>)
    requires
        r.name is Some,
        path@.len() > 0 ==> path@.last().name is Some,
    ensures
        b@ == spec_type_base(*r, path@.map_values(|x: &Route| *x)),
{
    let module = current_module(path);
    let mut out: Vec<char> = Vec::new();
    push_string(&mut out, &module);
    match &r.name {
        Some(n) => push_string(&mut out, n),
        None => {},
    }
    assert(out@ =~= spec_type_base(*r, path@.map_values(|x: &Route| *x)));
    out
}

impl Route {
    /// Renders the request type of a command route.
    pub fn render_request_type(&self, path: &Vec<&Route>, defs: &Vec<(String, TypeDefinition)>) -> (r: Result<(String, String), CodegenError>)
        requires
            self.name is Some,
            path@.len() > 0 ==> path@.last().name is Some,
        ensures
            match spec_request_type(*self, path@.map_values(|x: &Route| *x), defs@) {
                Ok((n, t)) => r matches Ok((a, b)) && a@ == n && b@ == t,
                Err(e) => r == Err::<(String, String), CodegenError>(e),
            },
    {
        let base = type_base(self, path);
        match &self.request_type {
            BasicType::Struct => {
                let mut struct_name = pascal_name(&base);
                push_str(&mut struct_name, "Arg");
                let mut text: Vec<char> = Vec::new();
                push_str(
                    &mut text,
                    "\n                    #[derive(BinWrite, Default, Debug, Clone, Serialize, Deserialize, Type)]\n                    pub struct ",
                );
                push_chars(&mut text, &struct_name);
                push_str(&mut text, " {\n                    ");
                push_member_lines(&mut text, &self.request_struct_members);
                push_str(&mut text, "}\n\n");
                Ok((chars_to_string(struct_name), chars_to_string(text)))
            },
            BasicType::Predefined(ty) => {
                if !defines(defs, ty) {
                    return Err(CodegenError::MissingTypeDefinition);
                }
                Ok((to_case(ty.as_str(), TextCase::Pascal), String::new()))
            },
            _ => Ok((self.request_type.as_type(), String::new())),
        }
    }

    /// Renders the return type of a command route.
    pub fn render_return_type(
        &self,
        path: &Vec<&Route>,
        top: &Vec<(u8, Route)>,
        defs: &Vec<(String, TypeDefinition)>,
    ) -> (r: Result<(String, String), CodegenError>)
        requires
            self.name is Some,
            path@.len() > 0 ==> path@.last().name is Some,
            spec_is_capabilities(*self) && self.id@ == seq![0u8, 2u8] ==> spec_level_renderable(
                top@,
            ),
            spec_is_capabilities(*self) && self.id@ != seq![0u8, 2u8] ==> path@.len() > 0
                && spec_level_renderable(path@.last().routes@),
        ensures
            match spec_return_type(*self, path@.map_values(|x: &Route| *x), top@, defs@) {
                Ok((n, t)) => r matches Ok((a, b)) && a@ == n && b@ == t,
                Err(e) => r == Err::<(String, String), CodegenError>(e),
            },
    {
        let base = type_base(self, path);
        let ghost p = path@.map_values(|x: &Route| *x);
        let capabilities = match &self.return_purpose {
            Some(purpose) => {
                let pc = crate::text::str_chars(purpose.as_str());
                crate::codegen::chars_eq_str(&pc, "capabilities")
            },
            None => false,
        };
        if capabilities {
            let cname = pascal_name(&base);
            let ctype = self.return_type.as_type();
            let mut text: Vec<char> = Vec::new();
            push_str(
                &mut text,
                "\n                #[derive(BinRead, PartialEq, Eq, PartialOrd, Ord, Hash, Debug, Clone, Copy, Serialize, Type)]\n                pub struct ",
            );
            push_chars(&mut text, &cname);
            push_str(&mut text, "(");
            push_string(&mut text, &ctype);
            push_str(&mut text, ");\n\n                bitflags! {\n                impl ");
            push_chars(&mut text, &cname);
            push_str(&mut text, ": ");
            push_string(&mut text, &ctype);
            push_str(&mut text, " {\n                ");
            push_str(&mut text, "\n");
            let is_subsystems = self.id.len() == 2 && self.id[0] == 0 && self.id[1] == 2;
            proof {
                if is_subsystems {
                    assert(self.id@ =~= seq![0u8, 2u8]);
                } else {
                    assert(self.id@ != seq![0u8, 2u8]);
                }
            }
            if is_subsystems {
                push_capability_lines(&mut text, top);
            } else {
                let last = path[path.len() - 1];
                push_capability_lines(&mut text, &last.routes);
            }
            push_str(&mut text, "}\n}\n");
            push_str(&mut text, "\n");
            return Ok((chars_to_string(cname), chars_to_string(text)));
        }
        match &self.return_type {
            BasicType::Unit => {
                let mut unit: Vec<char> = Vec::new();
                push_str(&mut unit, "()");
                assert(unit@ =~= "()"@);
                Ok((chars_to_string(unit), String::new()))
            },
            BasicType::Predefined(ty) => {
                if !defines(defs, ty) {
                    return Err(CodegenError::MissingTypeDefinition);
                }
                Ok((to_case(ty.as_str(), TextCase::Pascal), String::new()))
            },
            BasicType::Struct => {
                let mut rname = pascal_name(&base);
                push_str(&mut rname, "Response");
                let mut text: Vec<char> = Vec::new();
                push_str(
                    &mut text,
                    "\n                        #[derive(BinRead, Default, Debug, Clone, Serialize, Type)]\n                        pub struct ",
                );
                push_chars(&mut text, &rname);
                push_str(&mut text, " {\n                        ");
                push_str(&mut text, "\n");
                push_member_lines(&mut text, &self.return_struct_members);
                push_str(&mut text, "}\n");
                push_str(&mut text, "\n");
                Ok((chars_to_string(rname), chars_to_string(text)))
            },
            _ => {
                let mut rname = pascal_name(&base);
                push_str(&mut rname, "Response");
                let mut text: Vec<char> = Vec::new();
                push_str(
                    &mut text,
                    "\n                        #[derive(BinRead, Default, Debug, Clone, Serialize, Type)]\n                        pub struct ",
                );
                push_chars(&mut text, &rname);
                push_str(&mut text, "(pub ");
                let ty = self.return_type.as_type();
                push_string(&mut text, &ty);
                push_str(&mut text, ");\n                        ");
                push_str(&mut text, "\n");
                Ok((chars_to_string(rname), chars_to_string(text)))
            },
        }
    }

    /// Renders a command route into `out` and records the path of its tauri
    /// command; gives the command's snake case name.
    pub fn render_command(
        &self,
        path: &Vec<&Route>,
        top: &Vec<(u8, Route)>,
        defs: &Vec<(String, TypeDefinition)>,
        out: &mut Vec<char>,
        commands: &mut Vec<String>,
    ) -> (r: Result<String, CodegenError>)
        requires
            self.name is Some,
            self.description is Some,
            self.xap_version is Some,
            forall|i: int| 0 <= i < path@.len() ==> (#[trigger] path@[i]).name is Some,
            spec_is_capabilities(*self) && self.id@ == seq![0u8, 2u8] ==> spec_level_renderable(
                top@,
            ),
            spec_is_capabilities(*self) && self.id@ != seq![0u8, 2u8] ==> path@.len() > 0
                && spec_level_renderable(path@.last().routes@),
        ensures
            match spec_command(*self, path@.map_values(|x: &Route| *x), top@, defs@) {
                Ok((text, command)) => {
                    &&& r matches Ok(snake) && snake@ == spec_to_case(
                        spec_type_base(*self, path@.map_values(|x: &Route| *x)),
                        TextCase::Snake,
                    )
                    &&& final(out)@ == old(out)@ + text
                    &&& final(commands)@.len() == old(commands)@.len() + 1
                    &&& forall|i: int|
                        0 <= i < old(commands)@.len() ==> #[trigger] final(commands)@[i] == old(
                            commands,
                        )@[i]
                    &&& final(commands)@.last()@ == command
                },
                Err(e) => r == Err::<String, CodegenError>(e) && final(out)@ == old(out)@
                    && final(commands)@ == old(commands)@,
            },
    {
        let ghost path_view = path@.map_values(|x: &Route| *x);
        let base = type_base(self, path);
        let (req_name, req_text) = match self.render_request_type(path, defs) {
            Ok(x) => x,
            Err(e) => return Err(e),
        };
        let (resp_name, resp_text) = match self.render_return_type(path, top, defs) {
            Ok(x) => x,
            Err(e) => return Err(e),
        };
        let command_name = match &self.name {
            Some(n) => n.clone(),
            None => String::new(),
        };
        let description = match &self.description {
            Some(d) => {
                let chars = crate::text::str_chars(d.as_str());
                replace_all(&chars, "\n", "\n/// ")
            },
            None => Vec::new(),
        };
        let base_string = chars_to_string(clone_chars(&base));
        let name_pascal = to_case(base_string.as_str(), TextCase::Pascal);
        let name_snake = to_case(base_string.as_str(), TextCase::Snake);
        let id = render_id(self.id.as_slice());
        let version = match &self.xap_version {
            Some(v) => v.to_display_string(),
            None => String::new(),
        };
        let unit = match &self.request_type {
            BasicType::Unit => true,
            _ => false,
        };
        let text = command_text(
            &command_name,
            &description,
            &name_pascal,
            &name_snake,
            &req_name,
            &req_text,
            &resp_name,
            &resp_text,
            &id,
            &version,
            unit,
        );
        assert(text@ =~= spec_command(*self, path_view, top@, defs@)->Ok_0.0);
        push_chars(out, &text);
        let full = full_module_path(path);
        let mut command: Vec<char> = Vec::new();
        push_string(&mut command, &full);
        push_str(&mut command, "::");
        push_string(&mut command, &name_snake);
        assert(command@ =~= spec_command(*self, path_view, top@, defs@)->Ok_0.1);
        commands.push(chars_to_string(command));
        Ok(name_snake)
    }

    /// Renders this route and everything below it into `out`, recording the
    /// commands it defines, as `spec_render_node` says.
    #[verifier::spinoff_prover]
    #[verifier::rlimit(60)]
    pub fn render<'a>(
        &'a self,
        path: &mut Vec<&'a Route>,
        top: &Vec<(u8, Route)>,
        defs: &Vec<(String, TypeDefinition)>,
        out: &mut Vec<char>,
        commands: &mut Vec<String>,
    ) -> (r: Result<(), CodegenError>)
        requires
            spec_renderable(*self),
            spec_capabilities_placed(*self, old(path)@.len() > 0),
            spec_all_renderable(top@),
            forall|i: int| 0 <= i < old(path)@.len() ==> spec_renderable(*#[trigger] old(path)@[i]),
            forall|i: int|
                0 <= i < old(path)@.len() ==> (#[trigger] old(path)@[i]).route_type == Some(
                    RouteType::Router,
                ),
        ensures
            final(path)@ == old(path)@,
            match spec_render_node(*self, old(path)@.map_values(|x: &Route| *x), top@, defs@) {
                Ok((t, c)) => r is Ok && final(out)@ == old(out)@ + t && strings_view(final(commands)@)
                    == strings_view(old(commands)@) + c,
                Err(e) => r == Err::<(), CodegenError>(e),
            },
        decreases self, 0int,
    {
        let ghost path0 = path@.map_values(|x: &Route| *x);
        match self.route_type {
            Some(RouteType::Router) => {
                path.push(self);
                let ghost inner = path@.map_values(|x: &Route| *x);
                assert(inner =~= path0.push(*self));
                let module_name = current_module(path);
                let mut text: Vec<char> = Vec::new();
                push_str(&mut text, "\n            #[allow(dead_code)]\n            #[allow(unused_imports)]\n            pub mod ");
                push_string(&mut text, &module_name);
                push_str(&mut text, " {\n                use std::sync::Arc;\n\n                use binrw::{BinRead, BinWrite};\n                use bitflags::bitflags;\n                use parking_lot::Mutex;\n                use serde::{Serialize, Deserialize};\n                use specta::Type;\n                #[cfg(feature = \"tauri-codegen\")]\n                use tauri::State;\n                use uuid::Uuid;\n\n                use xap_specs::request::XAPRequest;\n                use xap_specs::response::UTF8String;\n                use crate::xap::hid::XAPClient;\n                use crate::xap::ClientResult;\n                use crate::xap_spec::types::*;\n            ");
                push_str(&mut text, "\n");
                assert(text@ =~= spec_module_head(inner));
                push_chars(out, &text);
                let res = render_level(&self.routes, 0, path, top, defs, out, commands);
                let popped = path.pop();
                assert(path@ =~= old(path)@);
                match res {
                    Ok(()) => {
                        push_str(out, "\n            }\n            ");
                        push_str(out, "\n");
                        Ok(())
                    },
                    Err(e) => Err(e),
                }
            },
            Some(RouteType::Command) => {
                proof {
                    if path@.len() > 0 {
                        let last = *path@.last();
                        assert(spec_renderable(*path@[path@.len() - 1]));
                        assert forall|k: int| 0 <= k < last.routes@.len() implies (
                        #[trigger] last.routes@[k]).1.name is Some && last.routes@[k].1.id@.len()
                            > 0 by {
                            assert(spec_renderable(last.routes@[k].1));
                        }
                    }
                    assert forall|k: int| 0 <= k < top@.len() implies (#[trigger] top@[k]).1.name is Some
                        && top@[k].1.id@.len() > 0 by {
                        assert(spec_renderable(top@[k].1));
                    }
                }
                match self.render_command(path, top, defs, out, commands) {
                    Ok(_) => {},
                    Err(e) => return Err(e),
                }
                render_level(&self.routes, 0, path, top, defs, out, commands)
            },
            None => Ok(()),
        }
    }
}

/// Renders the routes of a level from position `i` on, in order.
fn render_level<'a>(
    routes: &'a Vec<(u8, Route)>,
    i: usize,
    path: &mut Vec<&'a Route>,
    top: &Vec<(u8, Route)>,
    defs: &Vec<(String, TypeDefinition)>,
    out: &mut Vec<char>,
    commands: &mut Vec<String>,
) -> (r: Result<(), CodegenError>)
    requires
        i <= routes@.len(),
        spec_all_renderable(routes@),
        forall|k: int|
            0 <= k < routes@.len() ==> spec_capabilities_placed(
                #[trigger] routes@[k].1,
                old(path)@.len() > 0,
            ),
        spec_all_renderable(top@),
        forall|k: int| 0 <= k < old(path)@.len() ==> spec_renderable(*#[trigger] old(path)@[k]),
        forall|k: int|
            0 <= k < old(path)@.len() ==> (#[trigger] old(path)@[k]).route_type == Some(
                RouteType::Router,
            ),
    ensures
        final(path)@ == old(path)@,
        match spec_render_from(routes@, i as int, old(path)@.map_values(|x: &Route| *x), top@, defs@) {
            Ok((t, c)) => r is Ok && final(out)@ == old(out)@ + t && strings_view(final(commands)@)
                == strings_view(old(commands)@) + c,
            Err(e) => r == Err::<(), CodegenError>(e),
        },
    decreases routes, routes@.len() - i,
{
    if i >= routes.len() {
        assert(old(out)@ + Seq::<char>::empty() =~= old(out)@);
        assert(strings_view(old(commands)@) + Seq::<Seq<char>>::empty() =~= strings_view(
            old(commands)@,
        ));
        return Ok(());
    }
    let child = &routes[i].1;
    proof {
        assert(decreases_to!(routes => routes@));
        assert(decreases_to!(routes@ => routes@[i as int]));
        assert(decreases_to!(routes@[i as int] => routes@[i as int].1));
    }
    match child.render(path, top, defs, out, commands) {
        Ok(()) => {},
        Err(e) => return Err(e),
    }
    render_level(routes, i + 1, path, top, defs, out, commands)
}

fn push_typedef_members(out: &mut Vec<char>, members: &Vec<StructMember>)
    ensures
        final(out)@ == old(out)@ + spec_typedef_members(members@),
{
    let ghost start = out@;
    let mut i: usize = 0;
    let mut any = false;
    assert(members@.subrange(0, 0) =~= Seq::<StructMember>::empty());
    assert(out@ =~= start + spec_typedef_members(members@.subrange(0, 0)));
    while i < members.len()
        invariant
            i <= members@.len(),
            out@ == start + spec_typedef_members(members@.subrange(0, i as int)),
            any == (spec_typedef_members(members@.subrange(0, i as int)).len() > 0),
        decreases members@.len() - i,
    {
        let ghost before = out@;
        let m = &members[i];
        let predefined = match &m.member_type {
            BasicType::Predefined(_) => true,
            _ => false,
        };
        let ghost q = members@.subrange(0, i + 1);
        proof {
            assert(q.drop_last() =~= members@.subrange(0, i as int));
            assert(q.last() == members@[i as int]);
        }
        if !predefined {
            if any {
                push_str(out, "\n");
            }
            push_str(out, "    pub ");
            let snake = to_case(m.name.as_str(), TextCase::Snake);
            let snake_chars = crate::text::str_chars(snake.as_str());
            let renamed = replace_all(&snake_chars, "type", "r#type");
            push_chars(out, &renamed);
            push_str(out, ": ");
            let ty = m.member_type.as_type();
            push_string(out, &ty);
            push_str(out, ",");
            any = true;
            proof {
                reveal_strlit("    pub ");
                assert(spec_typedef_member(members@[i as int]).len() > 0);
                let prev = spec_typedef_members(members@.subrange(0, i as int));
                if prev.len() == 0 {
                    assert(out@ =~= start + spec_typedef_members(q));
                } else {
                    assert(out@ =~= start + spec_typedef_members(q));
                }
            }
        } else {
            assert(out@ =~= start + spec_typedef_members(q));
        }
        i = i + 1;
    }
    assert(members@.subrange(0, members@.len() as int) =~= members@);
}

fn push_typedefs(out: &mut Vec<char>, defs: &Vec<(String, TypeDefinition)>)
    ensures
        final(out)@ == old(out)@ + spec_typedefs(defs@),
{
    let ghost start = out@;
    let mut i: usize = 0;
    assert(defs@.subrange(0, 0) =~= Seq::<(String, TypeDefinition)>::empty());
    assert(out@ =~= start + spec_typedefs(defs@.subrange(0, 0)));
    while i < defs.len()
        invariant
            i <= defs@.len(),
            out@ == start + spec_typedefs(defs@.subrange(0, i as int)),
        decreases defs@.len() - i,
    {
        let ghost before = out@;
        let (name, ty) = (&defs[i].0, &defs[i].1);
        let ghost q = defs@.subrange(0, i + 1);
        proof {
            assert(q.drop_last() =~= defs@.subrange(0, i as int));
            assert(q.last() == defs@[i as int]);
        }
        let is_struct = match &ty.def_type {
            BasicType::Struct => true,
            _ => false,
        };
        if is_struct {
            push_str(out, "\n                /// ");
            let desc_chars = crate::text::str_chars(ty.description.as_str());
            let desc = replace_all(&desc_chars, "\n", "\n/// ");
            push_chars(out, &desc);
            push_str(out, "\n                #[derive(BinRead, BinWrite, Default, Debug, Clone, Serialize, Deserialize, Type)]\n                pub struct ");
            let pascal = to_case(name.as_str(), TextCase::Pascal);
            push_string(out, &pascal);
            push_str(out, " {\n                ");
            push_typedef_members(out, &ty.struct_members);
            push_str(out, "\n                }\n                ");
            push_str(out, "\n");
            assert(out@ =~= start + spec_typedefs(q));
        } else {
            assert(out@ =~= start + spec_typedefs(q));
        }
        i = i + 1;
    }
    assert(defs@.subrange(0, defs@.len() as int) =~= defs@);
}

fn push_command_list(out: &mut Vec<char>, commands: &Vec<String>)
    ensures
        final(out)@ == old(out)@ + spec_command_list(strings_view(commands@)),
{
    let ghost start = out@;
    let ghost all = strings_view(commands@);
    let mut i: usize = 0;
    assert(all.subrange(0, 0) =~= Seq::<Seq<char>>::empty());
    assert(out@ =~= start + spec_command_list(all.subrange(0, 0)));
    while i < commands.len()
        invariant
            i <= commands@.len(),
            all == strings_view(commands@),
            out@ == start + spec_command_list(all.subrange(0, i as int)),
        decreases commands@.len() - i,
    {
        let ghost before = out@;
        if i > 0 {
            push_str(out, "\n");
        }
        push_str(out, "                            crate::xap_spec::");
        push_string(out, &commands[i]);
        push_str(out, ",");
        proof {
            let q = all.subrange(0, i + 1);
            assert(q.drop_last() =~= all.subrange(0, i as int));
            assert(q.last() == commands@[i as int]@);
            assert(out@ =~= start + spec_command_list(q));
        }
        i = i + 1;
    }
    assert(all.subrange(0, commands@.len() as int) =~= all);
}

impl Spec {
    /// Renders the whole file of this specification into `out` and gives
    /// the paths of the commands it defines, as `spec_render_spec` says.
    pub fn render(&self, out: &mut Vec<char>) -> (r: Result<Vec<String>, CodegenError>)
        requires
            spec_all_renderable(self.routes@),
            forall|k: int|
                0 <= k < self.routes@.len() ==> spec_capabilities_placed(
                    #[trigger] self.routes@[k].1,
                    false,
                ),
        ensures
            match spec_render_spec(*self) {
                Ok((t, c)) => r matches Ok(commands) && strings_view(commands@) == c && final(out)@
                    == old(out)@ + t,
                Err(e) => r == Err::<Vec<String>, CodegenError>(e),
            },
    {
        let mut commands: Vec<String> = Vec::new();
        let mut path: Vec<&Route> = Vec::new();
        assert(path@.map_values(|x: &Route| *x) =~= Seq::<Route>::empty());
        assert(strings_view(commands@) =~= Seq::<Seq<char>>::empty());
        match render_level(
            &self.routes,
            0,
            &mut path,
            &self.routes,
            &self.type_definitions,
            out,
            &mut commands,
        ) {
            Ok(()) => {},
            Err(e) => return Err(e),
        }
        assert(Seq::<Seq<char>>::empty() + strings_view(commands@) =~= strings_view(commands@));
        push_str(out, "pub mod types {\n                use binrw::{BinRead, BinWrite};\n                use serde::{Serialize, Deserialize};\n                use specta::Type;\n            ");
        push_str(out, "\n");
        push_typedefs(out, &self.type_definitions);
        push_str(out, "}");
        push_str(out, "\n");
        push_str(out, "\n            #[cfg(feature = \"tauri-codegen\")]\n            #[macro_export]\n            macro_rules! generate_specta_builder {\n                (commands: [$($command:ident),*], events: [$($event:ident),*]) => {{\n                    let specta_builder = tauri_specta::ts::builder()\n                        .commands(tauri_specta::collect_commands![\n");
        push_command_list(out, &commands);
        push_str(out, "\n                            $($command),*\n                        ]).events(tauri_specta::collect_events![$($event),*]);\n\n                    specta_builder\n                }};\n            }\n            ");
        push_str(out, "\n");
        Ok(commands)
    }
}

/// The route with its id and the ids of all routes below it prefixed by the
/// ids of the routes above: `new` is `old` with every id made absolute.
pub open spec fn spec_ids_expanded(new: Route, old: Route, prefix: Seq<u8>) -> bool
    decreases old,
{
    &&& new.id@ == prefix + old.id@
    &&& spec_same_except_ids_and_routes(new, old)
    &&& new.routes@.len() == old.routes@.len()
    &&& forall|i: int|
        0 <= i < old.routes@.len() ==> {
            &&& (#[trigger] new.routes@[i]).0 == old.routes@[i].0
            &&& spec_ids_expanded(new.routes@[i].1, old.routes@[i].1, new.id@)
        }
}

/// Both routes agree on everything but their ids and the routes below them.
pub open spec fn spec_same_except_ids_and_routes(a: Route, b: Route) -> bool {
    &&& a.xap_version == b.xap_version
    &&& a.name == b.name
    &&& a.description == b.description
    &&& a.route_type == b.route_type
    &&& a.return_type == b.return_type
    &&& a.return_struct_members == b.return_struct_members
    &&& a.return_purpose == b.return_purpose
    &&& a.request_type == b.request_type
    &&& a.request_struct_members == b.request_struct_members
}

/// The route with every route of the tree given the version, unless it
/// already has an earlier one.
pub open spec fn spec_versions_expanded(new: Route, old: Route, version: u32) -> bool
    decreases old,
{
    &&& new.xap_version == (match old.xap_version {
        Some(v) => if v.spec_value() > version {
            new.xap_version
        } else {
            old.xap_version
        },
        None => new.xap_version,
    })
    &&& (match new.xap_version {
        Some(v) => v.spec_value() == (match old.xap_version {
            Some(w) => if w.spec_value() > version {
                version
            } else {
                w.spec_value()
            },
            None => version,
        }),
        None => false,
    })
    &&& new.id == old.id
    &&& new.name == old.name
    &&& new.description == old.description
    &&& new.route_type == old.route_type
    &&& new.return_type == old.return_type
    &&& new.return_struct_members == old.return_struct_members
    &&& new.return_purpose == old.return_purpose
    &&& new.request_type == old.request_type
    &&& new.request_struct_members == old.request_struct_members
    &&& new.routes@.len() == old.routes@.len()
    &&& forall|i: int|
        0 <= i < old.routes@.len() ==> {
            &&& (#[trigger] new.routes@[i]).0 == old.routes@[i].0
            &&& spec_versions_expanded(new.routes@[i].1, old.routes@[i].1, version)
        }
}

impl Route {
    /// Makes the ids of this route and all routes below it absolute: each
    /// id is prefixed by the ids of the routes above it.
    pub fn expand_ids(&mut self, prefix: &Vec<u8>)
        ensures
            spec_ids_expanded(*final(self), *old(self), prefix@),
        decreases *old(self),
    {
        let mut id: Vec<u8> = Vec::new();
        let mut i: usize = 0;
        while i < prefix.len()
            invariant
                i <= prefix@.len(),
                id@ == prefix@.subrange(0, i as int),
            decreases prefix@.len() - i,
        {
            id.push(prefix[i]);
            i = i + 1;
            assert(id@ =~= prefix@.subrange(0, i as int));
        }
        let mut j: usize = 0;
        while j < self.id.len()
            invariant
                j <= self.id@.len(),
                prefix@.len() <= id@.len(),
                id@ == prefix@ + self.id@.subrange(0, j as int),
            decreases self.id@.len() - j,
        {
            id.push(self.id[j]);
            j = j + 1;
            assert(id@ =~= prefix@ + self.id@.subrange(0, j as int));
        }
        assert(self.id@.subrange(0, self.id@.len() as int) =~= self.id@);
        assert(prefix@.subrange(0, prefix@.len() as int) =~= prefix@);
        let ghost old_route = *self;
        let mut children: Vec<(u8, Route)> = Vec::new();
        std::mem::swap(&mut children, &mut self.routes);
        let mut done: Vec<(u8, Route)> = Vec::new();
        let n = children.len();
        let mut k: usize = 0;
        while k < n
            invariant
                k <= n == old_route.routes@.len(),
                old_route == *old(self),
                children@.len() == n - k,
                forall|x: int| 0 <= x < n - k ==> #[trigger] children@[x] == old_route.routes@[x + k],
                done@.len() == k,
                forall|x: int|
                    0 <= x < k ==> {
                        &&& (#[trigger] done@[x]).0 == old_route.routes@[x].0
                        &&& spec_ids_expanded(done@[x].1, old_route.routes@[x].1, id@)
                    },
            decreases n - k,
        {
            let (key, mut child) = children.remove(0);
            proof {
                assert(child == old_route.routes@[k as int].1);
                assert(decreases_to!(old_route => old_route.routes));
                assert(decreases_to!(old_route.routes => old_route.routes@));
                assert(decreases_to!(old_route.routes@ => old_route.routes@[k as int]));
                assert(decreases_to!(old_route.routes@[k as int] => old_route.routes@[k as int].1));
            }
            child.expand_ids(&id);
            done.push((key, child));
            k = k + 1;
        }
        self.id = id;
        self.routes = done;
    }

    /// Gives every route of the tree the version, unless it already has an
    /// earlier one.
    pub fn expand_xap_specs(&mut self, version: XapVersion)
        ensures
            spec_versions_expanded(*final(self), *old(self), version.spec_value()),
        decreases *old(self),
    {
        let replace = match &self.xap_version {
            Some(v) => v.value() > version.value(),
            None => true,
        };
        if replace {
            self.xap_version = Some(version);
        }
        let ghost old_route = *old(self);
        let ghost mid = *self;
        let mut children: Vec<(u8, Route)> = Vec::new();
        std::mem::swap(&mut children, &mut self.routes);
        let mut done: Vec<(u8, Route)> = Vec::new();
        let n = children.len();
        let mut k: usize = 0;
        while k < n
            invariant
                k <= n == old_route.routes@.len(),
                old_route == *old(self),
                children@.len() == n - k,
                forall|x: int| 0 <= x < n - k ==> #[trigger] children@[x] == old_route.routes@[x + k],
                done@.len() == k,
                forall|x: int|
                    0 <= x < k ==> {
                        &&& (#[trigger] done@[x]).0 == old_route.routes@[x].0
                        &&& spec_versions_expanded(
                            done@[x].1,
                            old_route.routes@[x].1,
                            version.spec_value(),
                        )
                    },
            decreases n - k,
        {
            let (key, mut child) = children.remove(0);
            proof {
                assert(child == old_route.routes@[k as int].1);
                assert(decreases_to!(old_route => old_route.routes));
                assert(decreases_to!(old_route.routes => old_route.routes@));
                assert(decreases_to!(old_route.routes@ => old_route.routes@[k as int]));
                assert(decreases_to!(old_route.routes@[k as int] => old_route.routes@[k as int].1));
            }
            child.expand_xap_specs(version);
            done.push((key, child));
            k = k + 1;
        }
        self.routes = done;
    }
}

/// The plain values of an optional string.
pub open spec fn spec_opt_view(o: Option<String>) -> Option<Seq<char>> {
    match o {
        Some(s) => Some(s@),
        None => None,
    }
}

/// Both member lists have the same names and types.
pub open spec fn spec_members_same(a: Seq<StructMember>, b: Seq<StructMember>) -> bool {
    &&& a.len() == b.len()
    &&& forall|i: int|
        0 <= i < a.len() ==> (#[trigger] a[i]).name@ == b[i].name@ && a[i].member_type@
            == b[i].member_type@
}

/// `a` is a copy of `b`: the same in every field, down the whole tree.
pub open spec fn spec_route_copy(a: Route, b: Route) -> bool
    decreases b,
{
    &&& a.id@ == b.id@
    &&& a.xap_version == b.xap_version
    &&& spec_opt_view(a.name) == spec_opt_view(b.name)
    &&& spec_opt_view(a.description) == spec_opt_view(b.description)
    &&& a.route_type == b.route_type
    &&& a.return_type@ == b.return_type@
    &&& spec_members_same(a.return_struct_members@, b.return_struct_members@)
    &&& spec_opt_view(a.return_purpose) == spec_opt_view(b.return_purpose)
    &&& a.request_type@ == b.request_type@
    &&& spec_members_same(a.request_struct_members@, b.request_struct_members@)
    &&& a.routes@.len() == b.routes@.len()
    &&& forall|i: int|
        0 <= i < b.routes@.len() ==> (#[trigger] a.routes@[i]).0 == b.routes@[i].0
            && spec_route_copy(a.routes@[i].1, b.routes@[i].1)
}

fn copy_members(members: &Vec<StructMember>) -> (r: Vec<StructMember>)
    ensures
        spec_members_same(r@, members@),
{
    let mut out: Vec<StructMember> = Vec::new();
    let mut i: usize = 0;
    while i < members.len()
        invariant
            i <= members@.len(),
            out@.len() == i,
            forall|k: int|
                0 <= k < i ==> (#[trigger] out@[k]).name@ == members@[k].name@
                    && out@[k].member_type@ == members@[k].member_type@,
        decreases members@.len() - i,
    {
        out.push(
            StructMember {
                name: members[i].name.clone(),
                member_type: members[i].member_type.duplicate(),
            },
        );
        i = i + 1;
    }
    out
}

fn copy_opt_string(o: &Option<String>) -> (r: Option<String>)
    ensures
        spec_opt_view(r) == spec_opt_view(*o),
{
    match o {
        Some(s) => Some(s.clone()),
        None => None,
    }
}

impl Route {
    /// A copy of this route and everything below it.
    pub fn duplicate(&self) -> (r: Route)
        ensures
            spec_route_copy(r, *self),
        decreases self,
    {
        let mut routes: Vec<(u8, Route)> = Vec::new();
        let mut i: usize = 0;
        while i < self.routes.len()
            invariant
                i <= self.routes@.len(),
                routes@.len() == i,
                forall|k: int|
                    0 <= k < i ==> (#[trigger] routes@[k]).0 == self.routes@[k].0 && spec_route_copy(
                        routes@[k].1,
                        self.routes@[k].1,
                    ),
            decreases self.routes@.len() - i,
        {
            proof {
                assert(decreases_to!(*self => self.routes));
                assert(decreases_to!(self.routes => self.routes@));
                assert(decreases_to!(self.routes@ => self.routes@[i as int]));
                assert(decreases_to!(self.routes@[i as int] => self.routes@[i as int].1));
            }
            let child = self.routes[i].1.duplicate();
            routes.push((self.routes[i].0, child));
            i = i + 1;
        }
        let mut id: Vec<u8> = Vec::new();
        let mut j: usize = 0;
        while j < self.id.len()
            invariant
                j <= self.id@.len(),
                id@ == self.id@.subrange(0, j as int),
            decreases self.id@.len() - j,
        {
            id.push(self.id[j]);
            j = j + 1;
            assert(id@ =~= self.id@.subrange(0, j as int));
        }
        assert(self.id@.subrange(0, self.id@.len() as int) =~= self.id@);
        Route {
            id,
            xap_version: self.xap_version,
            name: copy_opt_string(&self.name),
            description: copy_opt_string(&self.description),
            route_type: self.route_type,
            routes,
            return_type: self.return_type.duplicate(),
            return_struct_members: copy_members(&self.return_struct_members),
            return_purpose: copy_opt_string(&self.return_purpose),
            request_type: self.request_type.duplicate(),
            request_struct_members: copy_members(&self.request_struct_members),
        }
    }
}

/// The keys of a level ascend strictly.
pub open spec fn spec_keys_ascend(routes: Seq<(u8, Route)>) -> bool {
    forall|i: int, j: int| 0 <= i < j < routes.len() ==> #[trigger] routes[i].0 < #[trigger] routes[j].0
}

/// The keys of every level of the tree ascend strictly.
pub open spec fn spec_tree_keys_ascend(r: Route) -> bool
    decreases r,
{
    &&& spec_keys_ascend(r.routes@)
    &&& forall|i: int| 0 <= i < r.routes@.len() ==> spec_tree_keys_ascend(#[trigger] r.routes@[i].1)
}

/// Every route of a level has ascending keys down its tree.
pub open spec fn spec_level_keys_ascend(routes: Seq<(u8, Route)>) -> bool {
    &&& spec_keys_ascend(routes)
    &&& forall|i: int| 0 <= i < routes.len() ==> spec_tree_keys_ascend(#[trigger] routes[i].1)
}

/// `new` is `old` merged with `other`: the name, description and route type
/// of `other` where it has them, and the routes below merged key by key.
pub open spec fn spec_merged(new: Route, old: Route, other: Route) -> bool
    decreases old, 0int,
{
    &&& spec_opt_view(new.name) == (if other.name is Some {
        spec_opt_view(other.name)
    } else {
        spec_opt_view(old.name)
    })
    &&& spec_opt_view(new.description) == (if other.description is Some {
        spec_opt_view(other.description)
    } else {
        spec_opt_view(old.description)
    })
    &&& new.route_type == (if other.route_type is Some {
        other.route_type
    } else {
        old.route_type
    })
    &&& new.id == old.id
    &&& new.xap_version == old.xap_version
    &&& new.return_type == old.return_type
    &&& new.return_struct_members == old.return_struct_members
    &&& new.return_purpose == old.return_purpose
    &&& new.request_type == old.request_type
    &&& new.request_struct_members == old.request_struct_members
    &&& spec_children_merged(new.routes@, old.routes@, other.routes@)
}

/// Merging prefers the other route's texts: the merged route has the other
/// route's name, description and type wherever the other route has them,
/// and its own otherwise; its id, version and request and return types stay
/// its own.
pub proof fn law_merge_prefers_other_texts(new: Route, old: Route, other: Route)
    requires
        spec_merged(new, old, other),
    ensures
        other.description matches Some(d) ==> new.description matches Some(n) && n@ == d@,
        other.description is None ==> (old.description matches Some(d) ==> new.description matches Some(
            n,
        ) && n@ == d@),
        other.description is None && old.description is None ==> new.description is None,
        other.name matches Some(d) ==> new.name matches Some(n) && n@ == d@,
        other.name is None ==> (old.name matches Some(d) ==> new.name matches Some(n) && n@ == d@),
        other.route_type is Some ==> new.route_type == other.route_type,
        other.route_type is None ==> new.route_type == old.route_type,
        new.id == old.id,
        new.xap_version == old.xap_version,
        new.request_type == old.request_type,
        new.return_type == old.return_type,
{
}

/// The routes of a level merged with those of another, both ascending by
/// key: a key of one only is kept (copied from `other`), a key of both is
/// merged.
pub open spec fn spec_children_merged(
    new: Seq<(u8, Route)>,
    old: Seq<(u8, Route)>,
    other: Seq<(u8, Route)>,
) -> bool
    decreases old, other.len(),
{
    if old.len() == 0 && other.len() == 0 {
        new.len() == 0
    } else if new.len() == 0 {
        false
    } else if old.len() > 0 && (other.len() == 0 || old[0].0 < other[0].0) {
        new[0] == old[0] && spec_children_merged(new.drop_first(), old.drop_first(), other)
    } else if other.len() > 0 && (old.len() == 0 || other[0].0 < old[0].0) {
        new[0].0 == other[0].0 && spec_route_copy(new[0].1, other[0].1) && spec_children_merged(
            new.drop_first(),
            old,
            other.drop_first(),
        )
    } else {
        new[0].0 == old[0].0 && spec_merged(new[0].1, old[0].1, other[0].1)
            && spec_children_merged(new.drop_first(), old.drop_first(), other.drop_first())
    }
}

impl Route {
    /// Merges another version of this route into it: the other's name,
    /// description and route type where it has them, and the routes below
    /// merged key by key, as `spec_merged` says.
    pub fn merge(&mut self, other: &Route)
        requires
            spec_tree_keys_ascend(*old(self)),
            spec_tree_keys_ascend(*other),
        ensures
            spec_merged(*final(self), *old(self), *other),
        decreases *old(self), 1int,
    {
        if other.name.is_some() {
            self.name = copy_opt_string(&other.name);
        }
        if other.description.is_some() {
            self.description = copy_opt_string(&other.description);
        }
        if other.route_type.is_some() {
            self.route_type = other.route_type;
        }
        let mut olds: Vec<(u8, Route)> = Vec::new();
        std::mem::swap(&mut olds, &mut self.routes);
        proof {
            assert(olds@ == old(self).routes@);
            assert(spec_level_keys_ascend(olds@));
            assert(spec_level_keys_ascend(other.routes@));
            assert(decreases_to!(*old(self) => old(self).routes));
            assert(decreases_to!(old(self).routes => old(self).routes@));
            assert(other.routes@.subrange(0, other.routes@.len() as int) =~= other.routes@);
        }
        let merged = merge_children(olds, &other.routes, 0);
        self.routes = merged;
    }
}

/// Merges the routes `olds` with the routes of `others` from position `j`
/// on, both ascending by key.
fn merge_children(olds: Vec<(u8, Route)>, others: &Vec<(u8, Route)>, j: usize) -> (r: Vec<(u8, Route)>)
    requires
        j <= others@.len(),
        spec_level_keys_ascend(olds@),
        spec_level_keys_ascend(others@),
    ensures
        spec_children_merged(r@, olds@, others@.subrange(j as int, others@.len() as int)),
    decreases olds@, others@.len() - j,
{
    let ghost rest_other = others@.subrange(j as int, others@.len() as int);
    if olds.len() == 0 && j >= others.len() {
        return Vec::new();
    }
    proof {
        if j < others@.len() {
            assert(rest_other[0] == others@[j as int]);
        }
    }
    let take_old = olds.len() > 0 && (j >= others.len() || olds[0].0 < others[j].0);
    let take_other = !take_old && j < others.len() && (olds.len() == 0 || others[j].0 < olds[0].0);
    let ghost olds_view = olds@;
    let mut olds = olds;
    if take_old {
        let first = olds.remove(0);
        proof {
            assert(olds@ =~= olds_view.subrange(1, olds_view.len() as int));
            assert(decreases_to!(olds_view => olds@));
            assert forall|a: int, b: int| 0 <= a < b < olds@.len() implies #[trigger] olds@[a].0
                < #[trigger] olds@[b].0 by {
                assert(olds@[a] == olds_view[a + 1]);
                assert(olds@[b] == olds_view[b + 1]);
            }
            assert forall|a: int| 0 <= a < olds@.len() implies spec_tree_keys_ascend(
                #[trigger] olds@[a].1,
            ) by {
                assert(olds@[a] == olds_view[a + 1]);
            }
        }
        let mut rest = merge_children(olds, others, j);
        let ghost rest_before = rest@;
        rest.insert(0, first);
        assert(rest@.drop_first() =~= rest_before);
        proof {
            assert(rest@.drop_first() =~= rest@.subrange(1, rest@.len() as int));
            assert(olds_view.drop_first() =~= olds_view.subrange(1, olds_view.len() as int));
        }
        return rest;
    }
    if take_other {
        let copy = others[j].1.duplicate();
        let mut rest = merge_children(olds, others, j + 1);
        let ghost rest_before = rest@;
        rest.insert(0, (others[j].0, copy));
        assert(rest@.drop_first() =~= rest_before);
        proof {
            assert(rest_other.drop_first() =~= others@.subrange(j + 1, others@.len() as int));
            assert(rest@.drop_first() =~= rest@.subrange(1, rest@.len() as int));
        }
        return rest;
    }
    let (key, mut child) = olds.remove(0);
    proof {
        assert(olds@ =~= olds_view.subrange(1, olds_view.len() as int));
        assert(child == olds_view[0].1);
        assert(decreases_to!(olds_view => olds_view[0]));
        assert(decreases_to!(olds_view[0] => olds_view[0].1));
        assert(decreases_to!(olds_view => olds@));
        assert forall|a: int, b: int| 0 <= a < b < olds@.len() implies #[trigger] olds@[a].0
            < #[trigger] olds@[b].0 by {
            assert(olds@[a] == olds_view[a + 1]);
            assert(olds@[b] == olds_view[b + 1]);
        }
        assert forall|a: int| 0 <= a < olds@.len() implies spec_tree_keys_ascend(
            #[trigger] olds@[a].1,
        ) by {
            assert(olds@[a] == olds_view[a + 1]);
        }
        assert(spec_tree_keys_ascend(olds_view[0].1));
        assert(spec_tree_keys_ascend(others@[j as int].1));
    }
    child.merge(&others[j].1);
    let mut rest = merge_children(olds, others, j + 1);
    let ghost rest_before = rest@;
    rest.insert(0, (key, child));
    assert(rest@.drop_first() =~= rest_before);
    proof {
        assert(rest_other.drop_first() =~= others@.subrange(j + 1, others@.len() as int));
        assert(rest@.drop_first() =~= rest@.subrange(1, rest@.len() as int));
        assert(olds_view.drop_first() =~= olds_view.subrange(1, olds_view.len() as int));
    }
    rest
}

/// The position of the first entry called `name`.
pub open spec fn spec_name_index<T>(defs: Seq<(String, T)>, name: Seq<char>) -> Option<int>
    decreases defs.len(),
{
    if defs.len() == 0 {
        None
    } else {
        match spec_name_index(defs.drop_last(), name) {
            Some(i) => Some(i),
            None => if defs.last().0@ == name {
                Some(defs.len() - 1)
            } else {
                None
            },
        }
    }
}

/// Stores a named entry: it replaces the entry of the same name, or is
/// added at the end.
pub open spec fn spec_put<T>(defs: Seq<(String, T)>, e: (String, T)) -> Seq<(String, T)> {
    match spec_name_index(defs, e.0@) {
        Some(i) => defs.update(i, e),
        None => defs.push(e),
    }
}

/// Stores the named entries of `other` one after the other.
pub open spec fn spec_extend<T>(defs: Seq<(String, T)>, other: Seq<(String, T)>) -> Seq<(String, T)>
    decreases other.len(),
{
    if other.len() == 0 {
        defs
    } else {
        spec_put(spec_extend(defs, other.drop_last()), other.last())
    }
}

proof fn lemma_name_index<T>(defs: Seq<(String, T)>, name: Seq<char>)
    ensures
        spec_name_index(defs, name) matches Some(i) ==> 0 <= i < defs.len() && defs[i].0@ == name
            && forall|j: int| 0 <= j < i ==> defs[j].0@ != name,
        spec_name_index(defs, name) is None ==> forall|j: int|
            0 <= j < defs.len() ==> defs[j].0@ != name,
    decreases defs.len(),
{
    if defs.len() > 0 {
        let rest = defs.drop_last();
        lemma_name_index(rest, name);
        assert forall|j: int| 0 <= j < rest.len() implies rest[j] == defs[j] by {}
        assert(defs.last() == defs[defs.len() - 1]);
    }
}

fn put_def<T>(defs: &mut Vec<(String, T)>, e: (String, T))
    ensures
        final(defs)@ == spec_put(old(defs)@, e),
{
    proof {
        lemma_name_index(defs@, e.0@);
    }
    let mut i: usize = 0;
    while i < defs.len() && !(defs[i].0 == e.0)
        invariant
            i <= defs@.len(),
            forall|y: int| 0 <= y < i ==> (#[trigger] defs@[y]).0@ != e.0@,
            spec_name_index(defs@, e.0@) matches Some(k) ==> 0 <= k < defs@.len() && defs@[k].0@
                == e.0@ && forall|j: int| 0 <= j < k ==> defs@[j].0@ != e.0@,
            spec_name_index(defs@, e.0@) is None ==> forall|j: int|
                0 <= j < defs@.len() ==> defs@[j].0@ != e.0@,
        decreases defs@.len() - i,
    {
        i = i + 1;
    }
    if i < defs.len() {
        defs.set(i, e);
    } else {
        defs.push(e);
    }
}

fn extend_defs<T>(defs: &mut Vec<(String, T)>, other: Vec<(String, T)>)
    ensures
        final(defs)@ == spec_extend(old(defs)@, other@),
{
    let ghost all = other@;
    let mut rest = other;
    let mut k: usize = 0;
    let total = rest.len();
    assert(all.subrange(0, 0) =~= Seq::<(String, T)>::empty());
    while rest.len() > 0
        invariant
            k + rest@.len() == all.len(),
            total == all.len(),
            rest@ == all.subrange(k as int, all.len() as int),
            defs@ == spec_extend(old(defs)@, all.subrange(0, k as int)),
        decreases rest@.len(),
    {
        let ghost before = rest@;
        let e = rest.remove(0);
        proof {
            assert(before[0] == all[k as int]);
            assert(all.subrange(0, k + 1).drop_last() =~= all.subrange(0, k as int));
            assert(all.subrange(0, k + 1).last() == e);
        }
        put_def(defs, e);
        k = k + 1;
        assert(rest@ =~= all.subrange(k as int, all.len() as int));
    }
    assert(all.subrange(0, all.len() as int) =~= all);
}

/// `new` is `old` with the earlier specification `other` merged into it:
/// the routes merged key by key, each then given the version of `old` unless
/// it has an earlier one, and the named types and broadcast messages of
/// `other` stored after those of `old`, replacing those of the same name.
pub open spec fn spec_spec_merged(new: Spec, old: Spec, other: Spec) -> bool {
    &&& new.version == old.version
    &&& new.type_definitions@ == spec_extend(old.type_definitions@, other.type_definitions@)
    &&& spec_messages(new.broadcast_messages) == spec_messages_merged(
        spec_messages(old.broadcast_messages),
        spec_messages(other.broadcast_messages),
    )
    &&& exists|mid: Seq<(u8, Route)>|
        spec_children_merged(mid, old.routes@, other.routes@) && mid.len() == new.routes@.len()
            && forall|i: int|
            0 <= i < mid.len() ==> (#[trigger] new.routes@[i]).0 == mid[i].0
                && spec_versions_expanded(new.routes@[i].1, mid[i].1, old.version.spec_value())
}

impl Spec {
    /// Merges an earlier specification into this one: its routes merged
    /// with these key by key, every route given this specification's version
    /// unless it has an earlier one, and its named types and broadcast
    /// messages added, replacing those of the same name.
    pub fn merge(&mut self, other: Spec)
        requires
            spec_level_keys_ascend(old(self).routes@),
            spec_level_keys_ascend(other.routes@),
        ensures
            spec_spec_merged(*final(self), *old(self), other),
    {
        let mut olds: Vec<(u8, Route)> = Vec::new();
        std::mem::swap(&mut olds, &mut self.routes);
        assert(other.routes@.subrange(0, other.routes@.len() as int) =~= other.routes@);
        let mut merged = merge_children(olds, &other.routes, 0);
        let ghost mid = merged@;
        let n = merged.len();
        let mut done: Vec<(u8, Route)> = Vec::new();
        let mut k: usize = 0;
        while k < n
            invariant
                k <= n == mid.len(),
                merged@.len() == n - k,
                forall|x: int| 0 <= x < n - k ==> #[trigger] merged@[x] == mid[x + k],
                done@.len() == k,
                forall|x: int|
                    0 <= x < k ==> (#[trigger] done@[x]).0 == mid[x].0 && spec_versions_expanded(
                        done@[x].1,
                        mid[x].1,
                        self.version.spec_value(),
                    ),
            decreases n - k,
        {
            let (key, mut route) = merged.remove(0);
            route.expand_xap_specs(self.version);
            done.push((key, route));
            k = k + 1;
        }
        self.routes = done;
        extend_defs(&mut self.type_definitions, other.type_definitions);
        match other.broadcast_messages {
            Some(messages) => {
                let mine = self.broadcast_messages.take();
                match mine {
                    Some(mut existing) => {
                        extend_defs(&mut existing, messages);
                        self.broadcast_messages = Some(existing);
                    },
                    None => {
                        self.broadcast_messages = Some(messages);
                    },
                }
            },
            None => {},
        }
    }

    /// Makes the route ids absolute and gives every route the version of
    /// this specification unless it has an earlier one, as reading a
    /// specification file does.
    pub fn expand(&mut self)
        ensures
            final(self).version == old(self).version,
            final(self).type_definitions == old(self).type_definitions,
            final(self).broadcast_messages == old(self).broadcast_messages,
            final(self).routes@.len() == old(self).routes@.len(),
            forall|i: int|
                0 <= i < old(self).routes@.len() ==> (#[trigger] final(self).routes@[i]).0 == old(
                    self,
                ).routes@[i].0 && exists|mid: Route|
                    spec_ids_expanded(mid, old(self).routes@[i].1, Seq::empty())
                        && spec_versions_expanded(
                        final(self).routes@[i].1,
                        mid,
                        old(self).version.spec_value(),
                    ),
    {
        let ghost old_routes = self.routes@;
        let mut routes: Vec<(u8, Route)> = Vec::new();
        std::mem::swap(&mut routes, &mut self.routes);
        let mut done: Vec<(u8, Route)> = Vec::new();
        let n = routes.len();
        let mut k: usize = 0;
        while k < n
            invariant
                k <= n == old_routes.len(),
                routes@.len() == n - k,
                forall|x: int| 0 <= x < n - k ==> #[trigger] routes@[x] == old_routes[x + k],
                done@.len() == k,
                forall|x: int|
                    0 <= x < k ==> (#[trigger] done@[x]).0 == old_routes[x].0 && exists|mid: Route|
                        spec_ids_expanded(mid, old_routes[x].1, Seq::empty())
                            && spec_versions_expanded(done@[x].1, mid, self.version.spec_value()),
            decreases n - k,
        {
            let (key, mut route) = routes.remove(0);
            let empty: Vec<u8> = Vec::new();
            route.expand_ids(&empty);
            let ghost mid = route;
            route.expand_xap_specs(self.version);
            done.push((key, route));
            proof {
                assert(spec_ids_expanded(mid, old_routes[k as int].1, Seq::empty()));
            }
            k = k + 1;
        }
        self.routes = done;
    }
}

/// Whether `k` is the key of a route of `a` or of `b`.
pub open spec fn spec_key_of(k: u8, a: Seq<(u8, Route)>, b: Seq<(u8, Route)>) -> bool {
    (exists|j: int| 0 <= j < a.len() && #[trigger] a[j].0 == k) || (exists|j: int|
        0 <= j < b.len() && #[trigger] b[j].0 == k)
}

proof fn lemma_level_drop_first(s: Seq<(u8, Route)>)
    requires
        s.len() > 0,
        spec_level_keys_ascend(s),
    ensures
        spec_level_keys_ascend(s.drop_first()),
        forall|j: int| 0 < j < s.len() ==> s[0].0 < #[trigger] s[j].0,
        spec_tree_keys_ascend(s[0].1),
{
    let t = s.drop_first();
    assert forall|i: int, j: int| 0 <= i < j < t.len() implies #[trigger] t[i].0 < #[trigger] t[j].0 by {
        assert(t[i] == s[i + 1] && t[j] == s[j + 1]);
    }
    assert forall|i: int| 0 <= i < t.len() implies spec_tree_keys_ascend(#[trigger] t[i].1) by {
        assert(t[i] == s[i + 1]);
    }
    assert forall|j: int| 0 < j < s.len() implies s[0].0 < #[trigger] s[j].0 by {
        assert(s[0].0 < s[j].0);
    }
}

/// A level is ascending when its first route comes before all the others
/// and the rest is ascending.
proof fn lemma_level_cons(new: Seq<(u8, Route)>)
    requires
        new.len() > 0,
        spec_level_keys_ascend(new.drop_first()),
        forall|j: int| 0 <= j < new.drop_first().len() ==> new[0].0 < #[trigger] new.drop_first()[j].0,
        spec_tree_keys_ascend(new[0].1),
    ensures
        spec_level_keys_ascend(new),
{
    let t = new.drop_first();
    assert forall|i: int, j: int| 0 <= i < j < new.len() implies #[trigger] new[i].0 < #[trigger] new[j].0 by {
        assert(new[j] == t[j - 1]);
        if i > 0 {
            assert(new[i] == t[i - 1]);
        } else {
            assert(new[0].0 < t[j - 1].0);
        }
    }
    assert forall|i: int| 0 <= i < new.len() implies spec_tree_keys_ascend(#[trigger] new[i].1) by {
        if i > 0 {
            assert(new[i] == t[i - 1]);
        }
    }
}

proof fn lemma_copy_keeps_order(a: Route, b: Route)
    requires
        spec_route_copy(a, b),
        spec_tree_keys_ascend(b),
    ensures
        spec_tree_keys_ascend(a),
    decreases b,
{
    assert forall|i: int| 0 <= i < a.routes@.len() implies spec_tree_keys_ascend(
        #[trigger] a.routes@[i].1,
    ) by {
        assert(spec_route_copy(a.routes@[i].1, b.routes@[i].1));
        assert(spec_tree_keys_ascend(b.routes@[i].1));
        lemma_copy_keeps_order(a.routes@[i].1, b.routes@[i].1);
    }
    assert forall|i: int, j: int| 0 <= i < j < a.routes@.len() implies #[trigger] a.routes@[i].0
        < #[trigger] a.routes@[j].0 by {
        assert(a.routes@[i].0 == b.routes@[i].0);
        assert(a.routes@[j].0 == b.routes@[j].0);
        assert(b.routes@[i].0 < b.routes@[j].0);
    }
}

proof fn lemma_versions_keep_order(a: Route, b: Route, version: u32)
    requires
        spec_versions_expanded(a, b, version),
        spec_tree_keys_ascend(b),
    ensures
        spec_tree_keys_ascend(a),
    decreases b,
{
    assert forall|i: int| 0 <= i < a.routes@.len() implies spec_tree_keys_ascend(
        #[trigger] a.routes@[i].1,
    ) by {
        assert(spec_versions_expanded(a.routes@[i].1, b.routes@[i].1, version));
        assert(spec_tree_keys_ascend(b.routes@[i].1));
        lemma_versions_keep_order(a.routes@[i].1, b.routes@[i].1, version);
    }
    assert forall|i: int, j: int| 0 <= i < j < a.routes@.len() implies #[trigger] a.routes@[i].0
        < #[trigger] a.routes@[j].0 by {
        assert(a.routes@[i].0 == b.routes@[i].0);
        assert(a.routes@[j].0 == b.routes@[j].0);
        assert(b.routes@[i].0 < b.routes@[j].0);
    }
}

proof fn lemma_merged_keeps_order(new: Route, old: Route, other: Route)
    requires
        spec_merged(new, old, other),
        spec_tree_keys_ascend(old),
        spec_tree_keys_ascend(other),
    ensures
        spec_tree_keys_ascend(new),
    decreases old, 0int,
{
    lemma_children_keep_order(new.routes@, old.routes@, other.routes@);
}

proof fn lemma_children_keep_order(
    new: Seq<(u8, Route)>,
    old: Seq<(u8, Route)>,
    other: Seq<(u8, Route)>,
)
    requires
        spec_children_merged(new, old, other),
        spec_level_keys_ascend(old),
        spec_level_keys_ascend(other),
    ensures
        spec_level_keys_ascend(new),
        forall|i: int| 0 <= i < new.len() ==> spec_key_of(#[trigger] new[i].0, old, other),
    decreases old, other.len(),
{
    if old.len() == 0 && other.len() == 0 {
    } else if old.len() > 0 && (other.len() == 0 || old[0].0 < other[0].0) {
        let rest = new.drop_first();
        lemma_level_drop_first(old);
        lemma_children_keep_order(rest, old.drop_first(), other);
        assert forall|j: int| 0 <= j < rest.len() implies new[0].0 < #[trigger] rest[j].0 by {
            assert(spec_key_of(rest[j].0, old.drop_first(), other));
            if exists|x: int| 0 <= x < old.drop_first().len() && #[trigger] old.drop_first()[x].0
                == rest[j].0 {
                let x = choose|x: int|
                    0 <= x < old.drop_first().len() && #[trigger] old.drop_first()[x].0 == rest[j].0;
                assert(old.drop_first()[x] == old[x + 1]);
            } else {
                let x = choose|x: int| 0 <= x < other.len() && #[trigger] other[x].0 == rest[j].0;
                if x > 0 {
                    assert(other[0].0 < other[x].0);
                }
            }
        }
        lemma_level_cons(new);
        assert forall|i: int| 0 <= i < new.len() implies spec_key_of(#[trigger] new[i].0, old, other) by {
            if i == 0 {
                assert(old[0].0 == new[0].0);
            } else {
                assert(new[i] == rest[i - 1]);
                assert(spec_key_of(rest[i - 1].0, old.drop_first(), other));
                if exists|x: int| 0 <= x < old.drop_first().len() && #[trigger] old.drop_first()[x].0
                    == rest[i - 1].0 {
                    let x = choose|x: int|
                        0 <= x < old.drop_first().len() && #[trigger] old.drop_first()[x].0 == rest[i
                            - 1].0;
                    assert(old.drop_first()[x] == old[x + 1]);
                    assert(old[x + 1].0 == new[i].0);
                }
            }
        }
    } else if other.len() > 0 && (old.len() == 0 || other[0].0 < old[0].0) {
        let rest = new.drop_first();
        lemma_level_drop_first(other);
        lemma_children_keep_order(rest, old, other.drop_first());
        lemma_copy_keeps_order(new[0].1, other[0].1);
        assert forall|j: int| 0 <= j < rest.len() implies new[0].0 < #[trigger] rest[j].0 by {
            assert(spec_key_of(rest[j].0, old, other.drop_first()));
            if exists|x: int| 0 <= x < old.len() && #[trigger] old[x].0 == rest[j].0 {
                let x = choose|x: int| 0 <= x < old.len() && #[trigger] old[x].0 == rest[j].0;
                if x > 0 {
                    lemma_level_drop_first(old);
                    assert(old[0].0 < old[x].0);
                }
            } else {
                let x = choose|x: int|
                    0 <= x < other.drop_first().len() && #[trigger] other.drop_first()[x].0
                        == rest[j].0;
                assert(other.drop_first()[x] == other[x + 1]);
            }
        }
        lemma_level_cons(new);
        assert forall|i: int| 0 <= i < new.len() implies spec_key_of(#[trigger] new[i].0, old, other) by {
            if i == 0 {
                assert(other[0].0 == new[0].0);
            } else {
                assert(new[i] == rest[i - 1]);
                assert(spec_key_of(rest[i - 1].0, old, other.drop_first()));
                if exists|x: int| 0 <= x < other.drop_first().len() && #[trigger] other.drop_first()[x].0
                    == rest[i - 1].0 {
                    let x = choose|x: int|
                        0 <= x < other.drop_first().len() && #[trigger] other.drop_first()[x].0
                            == rest[i - 1].0;
                    assert(other.drop_first()[x] == other[x + 1]);
                    assert(other[x + 1].0 == new[i].0);
                }
            }
        }
    } else {
        let rest = new.drop_first();
        lemma_level_drop_first(old);
        lemma_level_drop_first(other);
        lemma_children_keep_order(rest, old.drop_first(), other.drop_first());
        lemma_merged_keeps_order(new[0].1, old[0].1, other[0].1);
        assert forall|j: int| 0 <= j < rest.len() implies new[0].0 < #[trigger] rest[j].0 by {
            assert(spec_key_of(rest[j].0, old.drop_first(), other.drop_first()));
            if exists|x: int| 0 <= x < old.drop_first().len() && #[trigger] old.drop_first()[x].0
                == rest[j].0 {
                let x = choose|x: int|
                    0 <= x < old.drop_first().len() && #[trigger] old.drop_first()[x].0 == rest[j].0;
                assert(old.drop_first()[x] == old[x + 1]);
            } else {
                let x = choose|x: int|
                    0 <= x < other.drop_first().len() && #[trigger] other.drop_first()[x].0
                        == rest[j].0;
                assert(other.drop_first()[x] == other[x + 1]);
            }
        }
        lemma_level_cons(new);
        assert forall|i: int| 0 <= i < new.len() implies spec_key_of(#[trigger] new[i].0, old, other) by {
            if i == 0 {
                assert(old[0].0 == new[0].0);
            } else {
                assert(new[i] == rest[i - 1]);
                assert(spec_key_of(rest[i - 1].0, old.drop_first(), other.drop_first()));
                if exists|x: int| 0 <= x < old.drop_first().len() && #[trigger] old.drop_first()[x].0
                    == rest[i - 1].0 {
                    let x = choose|x: int|
                        0 <= x < old.drop_first().len() && #[trigger] old.drop_first()[x].0 == rest[i
                            - 1].0;
                    assert(old.drop_first()[x] == old[x + 1]);
                    assert(old[x + 1].0 == new[i].0);
                } else {
                    let x = choose|x: int|
                        0 <= x < other.drop_first().len() && #[trigger] other.drop_first()[x].0
                            == rest[i - 1].0;
                    assert(other.drop_first()[x] == other[x + 1]);
                    assert(other[x + 1].0 == new[i].0);
                }
            }
        }
    }
}

/// Merging a specification whose routes have ascending keys at every level
/// into another such one gives routes with ascending keys at every level.
pub proof fn law_merge_keeps_keys_ascending(new: Spec, old: Spec, other: Spec)
    requires
        spec_spec_merged(new, old, other),
        spec_level_keys_ascend(old.routes@),
        spec_level_keys_ascend(other.routes@),
    ensures
        spec_level_keys_ascend(new.routes@),
{
    let mid = choose|mid: Seq<(u8, Route)>|
        spec_children_merged(mid, old.routes@, other.routes@) && mid.len() == new.routes@.len()
            && forall|i: int|
            0 <= i < mid.len() ==> (#[trigger] new.routes@[i]).0 == mid[i].0
                && spec_versions_expanded(new.routes@[i].1, mid[i].1, old.version.spec_value());
    lemma_children_keep_order(mid, old.routes@, other.routes@);
    let r = new.routes@;
    assert forall|i: int| 0 <= i < r.len() implies spec_tree_keys_ascend(#[trigger] r[i].1) by {
        assert(spec_versions_expanded(r[i].1, mid[i].1, old.version.spec_value()));
        assert(spec_tree_keys_ascend(mid[i].1));
        lemma_versions_keep_order(r[i].1, mid[i].1, old.version.spec_value());
    }
    assert forall|i: int, j: int| 0 <= i < j < r.len() implies #[trigger] r[i].0 < #[trigger] r[j].0 by {
        assert(r[i].0 == mid[i].0);
        assert(r[j].0 == mid[j].0);
        assert(mid[i].0 < mid[j].0);
    }
}

impl Route {
    /// Whether the keys of every level of the tree of this route ascend strictly.
    pub fn keys_ascend(&self) -> (r: bool)
        ensures
            r == spec_tree_keys_ascend(*self),
        decreases self,
    {
        let n = self.routes.len();
        let mut i: usize = 0;
        while i < n
            invariant
                i <= n == self.routes@.len(),
                forall|a: int, b: int| 0 <= a < b < i ==> #[trigger] self.routes@[a].0 < #[trigger] self.routes@[b].0,
                forall|a: int| 0 <= a < i ==> spec_tree_keys_ascend(#[trigger] self.routes@[a].1),
            decreases n - i,
        {
            if i > 0 && self.routes[i - 1].0 >= self.routes[i].0 {
                assert(!spec_keys_ascend(self.routes@)) by {
                    assert(!(self.routes@[i - 1].0 < self.routes@[i as int].0));
                }
                return false;
            }
            if !self.routes[i].1.keys_ascend() {
                return false;
            }
            assert forall|a: int, b: int| 0 <= a < b < i + 1 implies #[trigger] self.routes@[a].0
                < #[trigger] self.routes@[b].0 by {
                if b == i && a < i - 1 {
                    assert(self.routes@[a].0 < self.routes@[i - 1].0);
                }
            }
            i = i + 1;
        }
        true
    }
}

/// Whether the keys of every level of the routes ascend strictly.
pub fn level_keys_ascend(routes: &Vec<(u8, Route)>) -> (r: bool)
    ensures
        r == spec_level_keys_ascend(routes@),
{
    let n = routes.len();
    let mut i: usize = 0;
    while i < n
        invariant
            i <= n == routes@.len(),
            forall|a: int, b: int| 0 <= a < b < i ==> #[trigger] routes@[a].0 < #[trigger] routes@[b].0,
            forall|a: int| 0 <= a < i ==> spec_tree_keys_ascend(#[trigger] routes@[a].1),
        decreases n - i,
    {
        if i > 0 && routes[i - 1].0 >= routes[i].0 {
            assert(!spec_keys_ascend(routes@)) by {
                assert(!(routes@[i - 1].0 < routes@[i as int].0));
            }
            return false;
        }
        if !routes[i].1.keys_ascend() {
            return false;
        }
        assert forall|a: int, b: int| 0 <= a < b < i + 1 implies #[trigger] routes@[a].0
            < #[trigger] routes@[b].0 by {
            if b == i && a < i - 1 {
                assert(routes@[a].0 < routes@[i - 1].0);
            }
        }
        i = i + 1;
    }
    true
}

/// Specifications ordered by version.
pub open spec fn spec_version_lt() -> spec_fn(Spec, Spec) -> bool {
    |a: Spec, b: Spec| a.version.spec_value() < b.version.spec_value()
}

fn sort_specs_by_version(specs: Vec<Spec>) -> (r: Vec<Spec>)
    requires
        forall|i: int| 0 <= i < specs@.len() ==> spec_level_keys_ascend(#[trigger] specs@[i].routes@),
    ensures
        r@ == spec_sorted_by(specs@, spec_version_lt()),
        forall|i: int| 0 <= i < r@.len() ==> spec_level_keys_ascend(#[trigger] r@[i].routes@),
{
    let ghost input = specs@;
    let mut rest = specs;
    let n: usize = rest.len();
    let mut sorted: Vec<Spec> = Vec::new();
    let mut i: usize = 0;
    assert(input.subrange(0, 0) =~= Seq::<Spec>::empty());
    while rest.len() > 0
        invariant
            i + rest@.len() == n,
            n == input.len(),
            rest@ == input.subrange(i as int, n as int),
            sorted@ == spec_sorted_by(input.subrange(0, i as int), spec_version_lt()),
            forall|k: int| 0 <= k < input.len() ==> spec_level_keys_ascend(#[trigger] input[k].routes@),
            forall|k: int| 0 <= k < sorted@.len() ==> spec_level_keys_ascend(#[trigger] sorted@[k].routes@),
        decreases rest@.len(),
    {
        let ghost old_rest = rest@;
        let e = rest.remove(0);
        assert(input[i as int] == e) by {
            assert(old_rest[0] == input.subrange(i as int, n as int)[0]);
        }
        let v = e.version.value();
        let mut j: usize = sorted.len();
        while j > 0 && v < sorted[j - 1].version.value()
            invariant
                j <= sorted@.len(),
                v == e.version.spec_value(),
                forall|k: int|
                    j <= k < sorted@.len() ==> e.version.spec_value()
                        < (#[trigger] sorted@[k]).version.spec_value(),
            decreases j,
        {
            j = j - 1;
        }
        proof {
            let s = sorted@;
            assert forall|k: int| j <= k < s.len() implies (spec_version_lt())(e, #[trigger] s[k]) by {}
            lemma_insert_at(s, e, spec_version_lt(), j as int);
            assert(input.subrange(0, i + 1).drop_last() =~= input.subrange(0, i as int));
            assert(input.subrange(0, i + 1).last() == e);
        }
        let ghost before = sorted@;
        sorted.insert(j, e);
        assert(sorted@ =~= before.insert(j as int, input[i as int]));
        assert forall|k: int| 0 <= k < sorted@.len() implies spec_level_keys_ascend(
            #[trigger] sorted@[k].routes@,
        ) by {
            if k < j {
                assert(sorted@[k] == before[k]);
            } else if k > j {
                assert(sorted@[k] == before[k - 1]);
            }
        }
        i = i + 1;
        assert(rest@ =~= input.subrange(i as int, n as int));
    }
    assert(input.subrange(0, n as int) =~= input);
    sorted
}

/// `r` is what merging the specifications of `sorted` in their order gives:
/// the first as it is, each later one with the result before it merged into it.
pub open spec fn spec_merge_chain(sorted: Seq<Spec>, r: Spec) -> bool
    decreases sorted.len(),
{
    if sorted.len() == 0 {
        false
    } else if sorted.len() == 1 {
        r == sorted[0]
    } else {
        exists|prev: Spec|
            #![trigger spec_spec_merged(r, sorted.last(), prev)]
            spec_merge_chain(sorted.drop_last(), prev) && spec_spec_merged(r, sorted.last(), prev)
    }
}

/// The specification that the bindings are rendered from: the files in
/// ascending version order, each merged into the next, the last one holding
/// them all; `None` without files.
pub fn merge_all(specs: Vec<Spec>) -> (r: Option<Spec>)
    requires
        forall|i: int| 0 <= i < specs@.len() ==> spec_level_keys_ascend(#[trigger] specs@[i].routes@),
    ensures
        match r {
            None => specs@.len() == 0,
            Some(s) => spec_merge_chain(spec_sorted_by(specs@, spec_version_lt()), s),
        },
{
    proof {
        lemma_sorted_by_permutes(specs@, spec_version_lt());
    }
    let sorted = sort_specs_by_version(specs);
    let ghost all = sorted@;
    let n = sorted.len();
    let mut rest = sorted;
    let mut acc: Option<Spec> = None;
    let mut k: usize = 0;
    while rest.len() > 0
        invariant
            k + rest@.len() == n,
            n == all.len(),
            rest@ == all.subrange(k as int, n as int),
            forall|x: int| 0 <= x < all.len() ==> spec_level_keys_ascend(#[trigger] all[x].routes@),
            k == 0 ==> acc is None,
            k > 0 ==> (acc matches Some(a) && spec_merge_chain(all.subrange(0, k as int), a)
                && spec_level_keys_ascend(a.routes@)),
        decreases rest@.len(),
    {
        let ghost old_rest = rest@;
        let mut s = rest.remove(0);
        assert(all[k as int] == s) by {
            assert(old_rest[0] == all.subrange(k as int, n as int)[0]);
        }
        let ghost sub = all.subrange(0, k + 1);
        assert(sub.drop_last() =~= all.subrange(0, k as int));
        assert(sub.last() == s);
        acc = match acc {
            None => {
                assert(sub =~= seq![s]);
                assert(spec_merge_chain(sub, s));
                assert(spec_level_keys_ascend(s.routes@)) by {
                    assert(spec_level_keys_ascend(all[k as int].routes@));
                }
                Some(s)
            },
            Some(prev) => {
                let ghost before = s;
                s.merge(prev);
                proof {
                    law_merge_keeps_keys_ascending(s, before, prev);
                    assert(spec_merge_chain(sub.drop_last(), prev) && spec_spec_merged(s, sub.last(), prev));
                    assert(sub.len() > 1);
                    assert(spec_merge_chain(sub, s));
                }
                Some(s)
            },
        };
        k = k + 1;
        assert(rest@ =~= all.subrange(k as int, n as int));
    }
    assert(all.subrange(0, n as int) =~= all);
    acc
}

impl Route {
    /// Whether this route and every route below it can be rendered, this
    /// route standing below a router when `inside_router` holds.
    pub fn renderable(&self, inside_router: bool) -> (r: bool)
        ensures
            r == (spec_renderable(*self) && spec_capabilities_placed(*self, inside_router)),
        decreases self,
    {
        let capabilities = match &self.return_purpose {
            Some(p) => crate::codegen::chars_eq_str(&crate::text::str_chars(p.as_str()), "capabilities"),
            None => false,
        };
        let is_command = match self.route_type {
            Some(RouteType::Command) => true,
            _ => false,
        };
        let is_router = match self.route_type {
            Some(RouteType::Router) => true,
            _ => false,
        };
        let enabled_subsystems = self.id.len() == 2 && self.id[0] == 0 && self.id[1] == 2;
        assert(enabled_subsystems == (self.id@ == seq![0u8, 2u8])) by {
            if self.id@.len() == 2 && self.id@[0] == 0 && self.id@[1] == 2 {
                assert(self.id@ =~= seq![0u8, 2u8]);
            }
        }
        if self.route_type.is_none() || self.name.is_none() || self.id.len() == 0 || (is_command && (
        self.description.is_none() || self.xap_version.is_none())) || (capabilities
            && !enabled_subsystems && !inside_router) {
            return false;
        }
        let below = inside_router || is_router;
        let n = self.routes.len();
        let mut i: usize = 0;
        while i < n
            invariant
                i <= n == self.routes@.len(),
                below == (inside_router || self.route_type == Some(RouteType::Router)),
                forall|a: int|
                    0 <= a < i ==> spec_renderable(#[trigger] self.routes@[a].1)
                        && spec_capabilities_placed(self.routes@[a].1, below),
            decreases n - i,
        {
            if !self.routes[i].1.renderable(below) {
                return false;
            }
            i = i + 1;
        }
        true
    }
}

impl Spec {
    /// Whether the whole file of this specification can be rendered.
    pub fn renderable(&self) -> (r: bool)
        ensures
            r == (spec_all_renderable(self.routes@) && forall|k: int|
                0 <= k < self.routes@.len() ==> spec_capabilities_placed(
                    #[trigger] self.routes@[k].1,
                    false,
                )),
    {
        let n = self.routes.len();
        let mut i: usize = 0;
        while i < n
            invariant
                i <= n == self.routes@.len(),
                forall|a: int|
                    0 <= a < i ==> spec_renderable(#[trigger] self.routes@[a].1)
                        && spec_capabilities_placed(self.routes@[a].1, false),
            decreases n - i,
        {
            if !self.routes[i].1.renderable(false) {
                return false;
            }
            i = i + 1;
        }
        true
    }
}

} // verus!
