//! The requests of the gateway's REST interface: paths and bodies.

use crate::ident::{append_decimal, decimal};
use reqwest::Url;
use vstd::prelude::*;
use vstd::string::StringExecFns;

verus! {

/// The HTTP method of a request.
#[derive(Debug, Clone, Copy, PartialEq, Eq, Structural)]
pub enum Method {
    Get,
    Put,
    Post,
}

/// One request to the gateway: where it goes and what it carries.
#[derive(Debug, Clone)]
pub struct Request {
    pub method: Method,
    pub url: Url,
    /// The JSON text to send, if the request has a body.
    pub body: Option<String>,
}

/// The path of the pairing endpoint, relative to the gateway address.
pub open spec fn pairing_path() -> Seq<char> {
    "api"@
}

/// The path of the light directory.
pub open spec fn lights_path(token: Seq<char>) -> Seq<char> {
    "api/"@ + token + "/lights"@
}

/// The path of one light.
pub open spec fn light_path(token: Seq<char>, id: u32) -> Seq<char> {
    lights_path(token) + "/"@ + decimal(id as nat)
}

/// The path at which a light's state is written.
pub open spec fn light_state_path(token: Seq<char>, id: u32) -> Seq<char> {
    light_path(token, id) + "/state"@
}

/// A member of the JSON object that a request carries: its name, and its
/// value as JSON text.
pub struct Member {
    pub name: Seq<char>,
    pub value: Seq<char>,
}

/// A member as it stands in a body: the quoted name, a colon, the value.
pub open spec fn member_text(member: Member) -> Seq<char> {
    "\""@ + member.name + "\":"@ + member.value
}

/// Members as they stand in a body: in their order, with commas between them.
pub open spec fn members_text(members: Seq<Member>) -> Seq<char>
    decreases members.len(),
{
    if members.len() == 0 {
        Seq::empty()
    } else if members.len() == 1 {
        member_text(members[0])
    } else {
        members_text(members.drop_last()) + ","@ + member_text(members.last())
    }
}

/// The JSON object of some members, without any space.
pub open spec fn object_text(members: Seq<Member>) -> Seq<char> {
    "{"@ + members_text(members) + "}"@
}

/// Whether a member of this name is among some members.
pub open spec fn has_member(members: Seq<Member>, name: Seq<char>) -> bool {
    exists|i: int| 0 <= i < members.len() && (#[trigger] members[i]).name == name
}

/// The members of a pairing request: the fixed name under which this client
/// registers.
pub open spec fn pairing_members() -> Seq<Member> {
    seq![Member { name: "devicetype"@, value: "\"deconz-rs\""@ }]
}

/// The members of the request that switches a light: `on` and no other.
pub open spec fn on_state_members(on: bool) -> Seq<Member> {
    seq![
        Member {
            name: "on"@,
            value: if on {
                "true"@
            } else {
                "false"@
            },
        },
    ]
}

/// The member of an attribute for which a value is given; none where none is.
pub open spec fn given_member(name: Seq<char>, value: Option<nat>) -> Seq<Member> {
    match value {
        Some(n) => seq![Member { name, value: decimal(n) }],
        None => Seq::empty(),
    }
}

/// An optional attribute as an optional number.
pub open spec fn level<T: Integer>(value: Option<T>) -> Option<nat> {
    match value {
        None => None,
        Some(v) => Some(v as nat),
    }
}

/// The members of a colour change: those of `hue`, `bri` and `sat`, in this
/// order, for which a value is given, and no other.
pub open spec fn color_members(hue: Option<u16>, bri: Option<u8>, sat: Option<u8>) -> Seq<Member> {
    given_member("hue"@, level(hue)) + given_member("bri"@, level(bri)) + given_member(
        "sat"@,
        level(sat),
    )
}

/// The body of a pairing request.
pub open spec fn pairing_body() -> Seq<char> {
    object_text(pairing_members())
}

/// The body that switches a light.
pub open spec fn on_state_body(on: bool) -> Seq<char> {
    object_text(on_state_members(on))
}

/// The body that changes a light's colour.
pub open spec fn color_body(hue: Option<u16>, bri: Option<u8>, sat: Option<u8>) -> Seq<char> {
    object_text(color_members(hue, bri, sat))
}

/// A colour change has a member for an attribute exactly where a value is
/// given for it, holds that value in decimal, and has no member of another
/// name: an attribute without a value is left out, not sent as `null` or 0.
pub proof fn lemma_color_members_are_the_given(hue: Option<u16>, bri: Option<u8>, sat: Option<u8>)
    ensures
        has_member(color_members(hue, bri, sat), "hue"@) <==> hue is Some,
        has_member(color_members(hue, bri, sat), "bri"@) <==> bri is Some,
        has_member(color_members(hue, bri, sat), "sat"@) <==> sat is Some,
        forall|i: int|
            0 <= i < color_members(hue, bri, sat).len() ==> {
                let member = #[trigger] color_members(hue, bri, sat)[i];
                ||| member.name == "hue"@ && hue is Some && member.value == decimal(hue->Some_0 as nat)
                ||| member.name == "bri"@ && bri is Some && member.value == decimal(bri->Some_0 as nat)
                ||| member.name == "sat"@ && sat is Some && member.value == decimal(sat->Some_0 as nat)
            },
        color_members(hue, bri, sat).len() == (if hue is Some {
            1int
        } else {
            0
        }) + (if bri is Some {
            1int
        } else {
            0
        }) + (if sat is Some {
            1int
        } else {
            0
        }),
{
    reveal_strlit("hue");
    reveal_strlit("bri");
    reveal_strlit("sat");
    let h = given_member("hue"@, level(hue));
    let b = given_member("bri"@, level(bri));
    let s = given_member("sat"@, level(sat));
    let all = color_members(hue, bri, sat);
    assert("hue"@[0] == 'h' && "bri"@[0] == 'b' && "sat"@[0] == 's');
    assert("hue"@ != "bri"@ && "hue"@ != "sat"@ && "bri"@ != "sat"@);
    if hue is Some {
        assert(all[0].name == "hue"@);
    }
    if bri is Some {
        assert(all[h.len() as int].name == "bri"@);
    }
    if sat is Some {
        assert(all[(h.len() + b.len()) as int].name == "sat"@);
    }
}

/// The request that switches a light has the one member `on`.
pub proof fn lemma_on_state_members_are_on_alone(on: bool)
    ensures
        on_state_members(on).len() == 1,
        on_state_members(on)[0].name == "on"@,
        on_state_members(on)[0].value == (if on {
            "true"@
        } else {
            "false"@
        }),
{
}

/// A JSON object in the writing: the text so far and the members it holds.
struct ObjectWriter {
    text: String,
    empty: bool,
    members: Ghost<Seq<Member>>,
}

impl ObjectWriter {
    spec fn wf(&self) -> bool {
        &&& self.text@ == "{"@ + members_text(self.members@)
        &&& self.empty == (self.members@.len() == 0)
    }

    fn new() -> (r: ObjectWriter)
        ensures
            r.wf(),
            r.members@ == Seq::<Member>::empty(),
    {
        let r = ObjectWriter { text: String::from_str("{"), empty: true, members: Ghost(Seq::empty()) };
        assert(r.text@ =~= "{"@ + members_text(r.members@));
        r
    }

    fn member(&mut self, name: &str, value: &str)
        requires
            old(self).wf(),
        ensures
            final(self).wf(),
            final(self).members@ == old(self).members@.push(Member { name: name@, value: value@ }),
    {
        let ghost before = self.members@;
        let ghost added = Member { name: name@, value: value@ };
        if !self.empty {
            self.text.append(",");
        }
        self.text.append("\"");
        self.text.append(name);
        self.text.append("\":");
        self.text.append(value);
        self.empty = false;
        self.members = Ghost(before.push(added));
        proof {
            assert(before.push(added).drop_last() =~= before);
            assert(before.push(added).last() == added);
            assert(self.text@ =~= "{"@ + members_text(before.push(added)));
        }
    }

    fn finish(self) -> (r: String)
        requires
            self.wf(),
        ensures
            r@ == object_text(self.members@),
    {
        let mut text = self.text;
        text.append("}");
        text
    }
}

/// Writes the path of the light directory.
pub fn write_lights_path(token: &str) -> (r: String)
    ensures
        r@ == lights_path(token@),
{
    let mut path = String::from_str("api/");
    path.append(token);
    path.append("/lights");
    path
}

/// Writes the path of one light.
pub fn write_light_path(token: &str, id: u32) -> (r: String)
    ensures
        r@ == light_path(token@, id),
{
    let mut path = write_lights_path(token);
    path.append("/");
    append_decimal(&mut path, id);
    path
}

/// Writes the path at which a light's state is written.
pub fn write_light_state_path(token: &str, id: u32) -> (r: String)
    ensures
        r@ == light_state_path(token@, id),
{
    let mut path = write_light_path(token, id);
    path.append("/state");
    path
}

/// Writes the body of a pairing request.
pub fn write_pairing_body() -> (r: String)
    ensures
        r@ == pairing_body(),
{
    let mut object = ObjectWriter::new();
    object.member("devicetype", "\"deconz-rs\"");
    proof {
        assert(object.members@ =~= pairing_members());
    }
    object.finish()
}

/// Writes the body that switches a light on or off.
pub fn write_on_state_body(on: bool) -> (r: String)
    ensures
        r@ == on_state_body(on),
{
    let mut object = ObjectWriter::new();
    object.member(
        "on",
        if on {
            "true"
        } else {
            "false"
        },
    );
    proof {
        assert(object.members@ =~= on_state_members(on));
    }
    object.finish()
}

fn write_given(object: &mut ObjectWriter, name: &str, value: Option<u32>)
    requires
        old(object).wf(),
    ensures
        final(object).wf(),
        final(object).members@ == old(object).members@ + given_member(name@, level(value)),
{
    match value {
        None => {
            proof {
                assert(object.members@ =~= old(object).members@ + given_member(name@, level(value)));
            }
        },
        Some(n) => {
            let mut number = String::new();
            append_decimal(&mut number, n);
            object.member(name, number.as_str());
            proof {
                assert(number@ =~= decimal(n as nat));
                assert(object.members@ =~= old(object).members@ + given_member(name@, level(value)));
            }
        },
    }
}

fn widen_hue(value: Option<u16>) -> (r: Option<u32>)
    ensures
        level(r) == level(value),
{
    match value {
        None => None,
        Some(v) => Some(v as u32),
    }
}

fn widen_level(value: Option<u8>) -> (r: Option<u32>)
    ensures
        level(r) == level(value),
{
    match value {
        None => None,
        Some(v) => Some(v as u32),
    }
}

/// Writes the body that changes a light's colour. An attribute without a
/// value is left out of the body, so the gateway leaves it as it is.
pub fn write_color_body(hue: Option<u16>, bri: Option<u8>, sat: Option<u8>) -> (r: String)
    ensures
        r@ == color_body(hue, bri, sat),
{
    let mut object = ObjectWriter::new();
    write_given(&mut object, "hue", widen_hue(hue));
    write_given(&mut object, "bri", widen_level(bri));
    write_given(&mut object, "sat", widen_level(sat));
    proof {
        assert(object.members@ =~= color_members(hue, bri, sat));
    }
    object.finish()
}

} // verus!
