use crate::ids::ValueTypeId;
use crate::input::{InputData, TaskInput};
use crate::opaque::{SharedReference, SharedValue};
use crate::registry::{tag_valid, Registry, RegistryData};
use vstd::prelude::*;
use vstd::string::StringExecFns;

verus! {

/// The decimal digit characters.
pub open spec fn dec_digit(d: nat) -> char {
    if d == 0 {
        '0'
    } else if d == 1 {
        '1'
    } else if d == 2 {
        '2'
    } else if d == 3 {
        '3'
    } else if d == 4 {
        '4'
    } else if d == 5 {
        '5'
    } else if d == 6 {
        '6'
    } else if d == 7 {
        '7'
    } else if d == 8 {
        '8'
    } else {
        '9'
    }
}

/// The decimal rendering of a natural number, most significant digit
/// first, without leading zeroes (except for zero itself).
pub open spec fn dec_str(n: nat) -> Seq<char>
    decreases n,
{
    if n < 10 {
        seq![dec_digit(n)]
    } else {
        dec_str(n / 10) + seq![dec_digit(n % 10)]
    }
}

/// The decimal rendering of a signed number: a minus sign before the
/// magnitude when negative.
pub open spec fn dec_str_signed(v: int) -> Seq<char> {
    if v < 0 {
        seq!['-'] + dec_str((-v) as nat)
    } else {
        dec_str(v as nat)
    }
}

/// How an opaque wrapper renders: by the registered diagnostic name of
/// its tagged type, or as an untyped value.
pub open spec fn wrapper_desc(tag: Option<ValueTypeId>, rd: RegistryData) -> Seq<char> {
    match tag {
        Some(ty) => "value of type "@ + rd.types[ty.id as int].name,
        None => "untyped value"@,
    }
}

/// The rendered list elements up to position `k`, separated by commas.
pub open spec fn items_prefix(l: Seq<InputData>, rd: RegistryData, k: int) -> Seq<char>
    decreases l, (if k >= 0 { k as nat } else { 0nat }),
{
    if k <= 0 || k > l.len() {
        Seq::empty()
    } else if k == 1 {
        describe_data(l[0], rd)
    } else {
        items_prefix(l, rd, k - 1) + ", "@ + describe_data(l[k - 1], rd)
    }
}

/// The diagnostic rendering of an input. It is not a data-interchange
/// format and is not meant to round-trip; list contents render verbatim,
/// a quoted string renders its characters unescaped.
pub open spec fn describe_data(x: InputData, rd: RegistryData) -> Seq<char>
    decreases x, 0nat,
{
    match x {
        InputData::TaskOutput(t) => "task output "@ + dec_str(t.id as nat),
        InputData::TaskSlot(t, index) => "slot "@ + dec_str(index as nat) + " in "@ + dec_str(
            t.id as nat,
        ),
        InputData::List(l) => "list "@ + items_prefix(l, rd, l.len() as int),
        InputData::String(s) => "string \""@ + s + "\""@,
        InputData::Bool(b) => "bool "@ + (if b {
            "true"@
        } else {
            "false"@
        }),
        InputData::Usize(v) => "usize "@ + dec_str(v as nat),
        InputData::I32(v) => "i32 "@ + dec_str_signed(v as int),
        InputData::U32(v) => "u32 "@ + dec_str(v as nat),
        InputData::Nothing => "nothing"@,
        InputData::SharedValue(_) => "any value"@,
        InputData::SharedReference(r) => "shared reference with "@ + wrapper_desc(r.type_tag, rd),
    }
}

/// Every type tag on a reference-form wrapper anywhere in the input
/// denotes an entry of the registry.
pub open spec fn tags_valid_deep(x: InputData, rd: RegistryData) -> bool
    decreases x,
{
    match x {
        InputData::List(l) => forall|i: int|
            0 <= i < l.len() ==> tags_valid_deep(#[trigger] l[i], rd),
        InputData::SharedReference(r) => match r.type_tag {
            Some(ty) => tag_valid(rd, ty),
            None => true,
        },
        _ => true,
    }
}

/// A static string for one decimal digit.
fn digit_str(d: u64) -> (r: &'static str)
    requires
        d < 10,
    ensures
        r@ == seq![dec_digit(d as nat)],
{
    proof {
        reveal_strlit("0");
        reveal_strlit("1");
        reveal_strlit("2");
        reveal_strlit("3");
        reveal_strlit("4");
        reveal_strlit("5");
        reveal_strlit("6");
        reveal_strlit("7");
        reveal_strlit("8");
        reveal_strlit("9");
    }
    if d == 0 {
        "0"
    } else if d == 1 {
        "1"
    } else if d == 2 {
        "2"
    } else if d == 3 {
        "3"
    } else if d == 4 {
        "4"
    } else if d == 5 {
        "5"
    } else if d == 6 {
        "6"
    } else if d == 7 {
        "7"
    } else if d == 8 {
        "8"
    } else {
        "9"
    }
}

/// Appends the decimal rendering of `n`.
fn push_dec(out: &mut String, n: u64)
    ensures
        final(out)@ == old(out)@ + dec_str(n as nat),
    decreases n,
{
    if n < 10 {
        out.append(digit_str(n));
    } else {
        push_dec(out, n / 10);
        out.append(digit_str(n % 10));
        proof {
            assert(old(out)@ + dec_str((n / 10) as nat) + seq![dec_digit((n % 10) as nat)]
                =~= old(out)@ + dec_str(n as nat));
        }
    }
}

impl SharedValue {
    /// Renders the wrapper for diagnostics: the registered name of its
    /// type, or "untyped value".
    pub fn describe(&self, reg: &Registry) -> (r: String)
        requires
            (self.type_tag matches Some(ty) ==> tag_valid(reg@, ty)),
        ensures
            r@ == wrapper_desc(self@.type_tag, reg@),
    {
        describe_wrapper(self.type_tag, reg)
    }
}

impl SharedReference {
    /// Renders the wrapper for diagnostics: the registered name of its
    /// type, or "untyped value".
    pub fn describe(&self, reg: &Registry) -> (r: String)
        requires
            (self.type_tag matches Some(ty) ==> tag_valid(reg@, ty)),
        ensures
            r@ == wrapper_desc(self@.type_tag, reg@),
    {
        describe_wrapper(self.type_tag, reg)
    }
}

/// Renders a wrapper tag against the registry.
fn describe_wrapper(tag: Option<ValueTypeId>, reg: &Registry) -> (r: String)
    requires
        (tag matches Some(ty) ==> tag_valid(reg@, ty)),
    ensures
        r@ == wrapper_desc(tag, reg@),
{
    match tag {
        Some(ty) => {
            proof {
                reveal_strlit("value of type ");
            }
            let mut out = String::from_str("value of type ");
            let vt = reg.get_value_type(ty);
            out.append(vt.name.as_str());
            out
        },
        None => {
            proof {
                reveal_strlit("untyped value");
            }
            String::from_str("untyped value")
        },
    }
}

impl TaskInput {
    /// Renders the input for diagnostics and logs, in a stable shape
    /// (`string "x"`, `usize 3`, `list a, b, c`, ...). Not a
    /// data-interchange format.
    #[verifier::loop_isolation(false)]
    #[verifier::rlimit(60)]
    pub fn describe(&self, reg: &Registry) -> (r: String)
        requires
            tags_valid_deep(self@, reg@),
        ensures
            r@ == describe_data(self@, reg@),
        decreases *self,
    {
        match self {
            TaskInput::TaskOutput(t) => {
                proof {
                    reveal_strlit("task output ");
                }
                let mut out = String::from_str("task output ");
                push_dec(&mut out, t.id as u64);
                out
            },
            TaskInput::TaskSlot(t, index) => {
                proof {
                    reveal_strlit("slot ");
                    reveal_strlit(" in ");
                }
                let mut out = String::from_str("slot ");
                push_dec(&mut out, *index as u64);
                out.append(" in ");
                push_dec(&mut out, t.id as u64);
                out
            },
            TaskInput::List(l) => {
                proof {
                    crate::input::lemma_list_view(*self, *l);
                    reveal_strlit("list ");
                    reveal_strlit(", ");
                }
                let ghost lspec = self@->List_0;
                let mut out = String::from_str("list ");
                let mut i: usize = 0;
                while i < l.len()
                    invariant
                        0 <= i <= l@.len(),
                        out@ == "list "@ + items_prefix(lspec, reg@, i as int),
                    decreases l@.len() - i,
                {
                    proof {
                        assert(decreases_to!(TaskInput::List(*l) => *l));
                        assert(decreases_to!(*self => *l));
                        assert(decreases_to!(*l => l@[i as int]));
                        assert(self@->List_0[i as int] == l@[i as int]@);
                        assert(tags_valid_deep(l@[i as int]@, reg@));
                    }
                    if i > 0 {
                        out.append(", ");
                    }
                    let d = l[i].describe(reg);
                    out.append(d.as_str());
                    proof {
                        if i == 0 {
                            assert(("list "@ + items_prefix(lspec, reg@, 0)) + d@
                                =~= "list "@ + items_prefix(lspec, reg@, 1));
                        } else {
                            assert((("list "@ + items_prefix(lspec, reg@, i as int)) + ", "@) + d@
                                =~= "list "@ + items_prefix(lspec, reg@, i as int + 1));
                        }
                    }
                    i += 1;
                }
                out
            },
            TaskInput::String(s) => {
                proof {
                    reveal_strlit("string \"");
                    reveal_strlit("\"");
                }
                let mut out = String::from_str("string \"");
                out.append(s.as_str());
                out.append("\"");
                proof {
                    assert(("string \""@ + s@) + "\""@ =~= "string \""@ + s@ + "\""@);
                }
                out
            },
            TaskInput::Bool(b) => {
                proof {
                    reveal_strlit("bool ");
                    reveal_strlit("true");
                    reveal_strlit("false");
                }
                let mut out = String::from_str("bool ");
                if *b {
                    out.append("true");
                } else {
                    out.append("false");
                }
                out
            },
            TaskInput::Usize(v) => {
                proof {
                    reveal_strlit("usize ");
                }
                let mut out = String::from_str("usize ");
                push_dec(&mut out, *v as u64);
                out
            },
            TaskInput::I32(v) => {
                proof {
                    reveal_strlit("i32 ");
                    reveal_strlit("-");
                }
                let mut out = String::from_str("i32 ");
                if *v < 0 {
                    out.append("-");
                    let magnitude = (-(*v as i64)) as u64;
                    push_dec(&mut out, magnitude);
                    proof {
                        assert(("i32 "@ + "-"@) + dec_str(magnitude as nat)
                            =~= "i32 "@ + dec_str_signed(*v as int));
                    }
                } else {
                    push_dec(&mut out, *v as u64);
                }
                out
            },
            TaskInput::U32(v) => {
                proof {
                    reveal_strlit("u32 ");
                }
                let mut out = String::from_str("u32 ");
                push_dec(&mut out, *v as u64);
                out
            },
            TaskInput::Nothing => {
                proof {
                    reveal_strlit("nothing");
                }
                String::from_str("nothing")
            },
            TaskInput::SharedValue(_) => {
                proof {
                    reveal_strlit("any value");
                }
                String::from_str("any value")
            },
            TaskInput::SharedReference(data) => {
                proof {
                    reveal_strlit("shared reference with ");
                }
                let mut out = String::from_str("shared reference with ");
                let d = data.describe(reg);
                out.append(d.as_str());
                out
            },
        }
    }
}

} // verus!
