//! Sass values as libsass hands them to custom functions: a tree of tagged
//! values, with the readers and the rendering that custom functions use.

use vstd::prelude::*;
use crate::text::{decimal, no_nul_char, push_decimal, push_text, views};

verus! {

/// A Sass value, one variant per libsass tag.
pub enum RawValue {
    Boolean(bool),
    /// A number, held as the decimal text that libsass's value prints as.
    Number(String),
    Color,
    String(String),
    List(Vec<RawValue>),
    Mapping,
    Null,
    Error(String),
    Warning(String),
    /// A value whose tag is none of the above.
    Other(u32),
}

/// How a value is printed.
pub open spec fn rendered(v: RawValue) -> Seq<char>
    decreases v,
{
    match v {
        RawValue::List(items) => {
            proof {
                assert(decreases_to!(items => items@));
            }
            "["@ + rendered_items(items@) + "]"@
        },
        RawValue::String(s) => s@,
        RawValue::Boolean(b) => if b {
            "true"@
        } else {
            "false"@
        },
        RawValue::Number(t) => t@,
        RawValue::Color => "color(?,?,?,?)"@,
        RawValue::Mapping => "{?,?}"@,
        RawValue::Null => "(null)"@,
        RawValue::Error(m) => m@,
        RawValue::Warning(m) => m@,
        RawValue::Other(tag) => "bad sass tag "@ + decimal(tag as nat),
    }
}

/// How the elements of a list are printed: each printed, separated by ", ".
pub open spec fn rendered_items(items: Seq<RawValue>) -> Seq<char>
    decreases items,
{
    if items.len() == 0 {
        seq![]
    } else if items.len() == 1 {
        rendered(items[0])
    } else {
        rendered_items(items.drop_last()) + ", "@ + rendered(items.last())
    }
}

/// The texts of the string elements of a list, in order; other elements are
/// left out.
pub open spec fn string_items(items: Seq<RawValue>) -> Seq<Seq<char>>
    decreases items.len(),
{
    if items.len() == 0 {
        seq![]
    } else {
        match items.last() {
            RawValue::String(s) => string_items(items.drop_last()).push(s@),
            _ => string_items(items.drop_last()),
        }
    }
}

/// The string texts of a list are the texts of exactly its String elements,
/// in their order: numbers, booleans, lists and every other element are left
/// out.
pub proof fn string_items_are_the_strings(items: Seq<RawValue>)
    ensures
        string_items(items) == items.filter(|v: RawValue| v is String).map_values(
            |v: RawValue| v->String_0@,
        ),
    decreases items.len(),
{
    let p = |v: RawValue| v is String;
    let f = |v: RawValue| v->String_0@;
    reveal(Seq::filter);
    if items.len() > 0 {
        string_items_are_the_strings(items.drop_last());
        let sub = items.drop_last().filter(p);
        assert(items.filter(p) == if p(items.last()) {
            sub.push(items.last())
        } else {
            sub
        });
        if p(items.last()) {
            assert(sub.push(items.last()).map_values(f) =~= sub.map_values(f).push(
                f(items.last()),
            ));
        }
    } else {
        assert(items.filter(p).map_values(f) =~= Seq::<Seq<char>>::empty());
    }
}

/// A list without String elements yields no string texts; each text that a
/// list yields is the text of one of its String elements.
pub proof fn string_items_come_from_strings(items: Seq<RawValue>)
    ensures
        (forall|i: int| 0 <= i < items.len() ==> !(#[trigger] items[i] is String))
            ==> string_items(items).len() == 0,
        forall|k: int|
            0 <= k < string_items(items).len() ==> exists|j: int|
                0 <= j < items.len() && #[trigger] items[j] is String && items[j]->String_0@
                    == #[trigger] string_items(items)[k],
    decreases items.len(),
{
    if items.len() > 0 {
        let front = items.drop_last();
        string_items_come_from_strings(front);
        if forall|i: int| 0 <= i < items.len() ==> !(#[trigger] items[i] is String) {
            assert forall|i: int| 0 <= i < front.len() implies !(#[trigger] front[i] is String) by {
                assert(front[i] == items[i]);
            }
            assert(!(items[items.len() - 1] is String));
        }
        assert forall|k: int| 0 <= k < string_items(items).len() implies exists|j: int|
            0 <= j < items.len() && #[trigger] items[j] is String && items[j]->String_0@
                == #[trigger] string_items(items)[k] by {
            if k < string_items(front).len() {
                assert(string_items(items)[k] == string_items(front)[k]);
                let j = choose|j: int|
                    0 <= j < front.len() && #[trigger] front[j] is String && front[j]->String_0@
                        == #[trigger] string_items(front)[k];
                assert(items[j] == front[j]);
            } else {
                assert(items[items.len() - 1] is String);
            }
        }
    }
}

/// Printing no elements gives the empty text, and one element its own print.
pub proof fn rendered_items_of_few(item: RawValue)
    ensures
        rendered_items(Seq::<RawValue>::empty()) == Seq::<char>::empty(),
        rendered_items(seq![item]) == rendered(item),
{
}

/// Cut anywhere between two elements, the printed elements are those before
/// the cut, ", ", and those after it: every element is printed, in order,
/// with exactly one ", " between each two neighbours.
pub proof fn rendered_items_split(items: Seq<RawValue>, k: int)
    requires
        0 < k < items.len(),
    ensures
        rendered_items(items) == rendered_items(items.take(k)) + ", "@ + rendered_items(
            items.skip(k),
        ),
    decreases items.len(),
{
    let n = items.len() as int;
    let front = items.drop_last();
    if k == n - 1 {
        assert(items.take(k) =~= front);
        assert(items.skip(k) =~= seq![items.last()]);
    } else {
        rendered_items_split(front, k);
        assert(front.take(k) =~= items.take(k));
        assert(items.skip(k).drop_last() =~= front.skip(k));
        assert(items.skip(k).last() == items.last());
        let a = rendered_items(items.take(k));
        let b = rendered_items(front.skip(k));
        let c = rendered(items.last());
        assert(rendered_items(items.skip(k)) == b + ", "@ + c);
        assert((a + ", "@ + b) + ", "@ + c =~= a + ", "@ + (b + ", "@ + c));
    }
}

/// A list prints as "[", its elements, and "]".
pub proof fn list_rendering(items: Vec<RawValue>)
    ensures
        rendered(RawValue::List(items)) == "["@ + rendered_items(items@) + "]"@,
{
}

/// A list never yields more string texts than it has elements.
pub proof fn string_items_no_longer(items: Seq<RawValue>)
    ensures
        string_items(items).len() <= items.len(),
    decreases items.len(),
{
    if items.len() > 0 {
        string_items_no_longer(items.drop_last());
    }
}

/// The string at a position of a list is among the string texts of the list.
pub proof fn nth_string_is_listed(items: Seq<RawValue>, index: int)
    requires
        0 <= index < items.len(),
        items[index] is String,
    ensures
        items[index] matches RawValue::String(t) && string_items(items).contains(t@),
    decreases items.len(),
{
    let t = items[index]->String_0;
    if index == items.len() - 1 {
        assert(string_items(items) == string_items(items.drop_last()).push(t@));
        assert(string_items(items)[string_items(items).len() - 1] == t@);
    } else {
        nth_string_is_listed(items.drop_last(), index);
        let w = choose|k: int|
            0 <= k < string_items(items.drop_last()).len() && string_items(items.drop_last())[k]
                == t@;
        assert(string_items(items)[w] == t@);
    }
}

/// A Sass value together with whether it belongs to libsass (read only) or
/// was made by the library (and may be handed to libsass).
pub struct SassValue {
    pub raw: RawValue,
    pub is_const: bool,
}

/// Prints a value.
pub fn render_raw(v: &RawValue) -> (s: String)
    ensures
        s@ == rendered(*v),
    decreases v,
{
    match v {
        RawValue::List(items) => {
            let mut out = String::new();
            push_text(&mut out, "[");
            let mut i: usize = 0;
            while i < items.len()
                invariant
                    i <= items@.len(),
                    *v == RawValue::List(*items),
                    out@ == "["@ + rendered_items(items@.take(i as int)),
                decreases items@.len() - i,
            {
                assert(items@.take(i as int + 1).drop_last() =~= items@.take(i as int));
                assert(items@.take(i as int + 1).last() == items@[i as int]);
                if i > 0 {
                    push_text(&mut out, ", ");
                }
                assert(decreases_to!(*v => (*v)->List_0));
                assert(decreases_to!(*items => items@));
                assert(decreases_to!(items@ => items@[i as int]));
                let r = render_raw(&items[i]);
                push_text(&mut out, r.as_str());
                if i == 0 {
                    assert(out@ =~= "["@ + rendered_items(items@.take(1)));
                } else {
                    assert(out@ =~= "["@ + rendered_items(items@.take(i as int + 1)));
                }
                i = i + 1;
            }
            assert(items@.take(i as int) =~= items@);
            push_text(&mut out, "]");
            out
        },
        RawValue::String(s) => s.clone(),
        RawValue::Boolean(b) => {
            let mut out = String::new();
            if *b {
                push_text(&mut out, "true");
            } else {
                push_text(&mut out, "false");
            }
            out
        },
        RawValue::Number(t) => t.clone(),
        RawValue::Color => {
            let mut out = String::new();
            push_text(&mut out, "color(?,?,?,?)");
            out
        },
        RawValue::Mapping => {
            let mut out = String::new();
            push_text(&mut out, "{?,?}");
            out
        },
        RawValue::Null => {
            let mut out = String::new();
            push_text(&mut out, "(null)");
            out
        },
        RawValue::Error(m) => m.clone(),
        RawValue::Warning(m) => m.clone(),
        RawValue::Other(tag) => {
            let mut out = String::new();
            push_text(&mut out, "bad sass tag ");
            push_decimal(&mut out, *tag as u64);
            out
        },
    }
}

impl SassValue {
    /// Wraps a value that libsass owns; it is read only.
    pub fn from_raw(raw: RawValue) -> (v: SassValue)
        ensures
            v.raw == raw,
            v.is_const,
    {
        SassValue { raw, is_const: true }
    }

    /// A new Sass string; the text must pass as a C string.
    pub fn sass_string(input: &str) -> (v: SassValue)
        requires
            no_nul_char(input@),
        ensures
            v.raw matches RawValue::String(s) && s@ == input@,
            !v.is_const,
    {
        SassValue { raw: RawValue::String(input.to_owned()), is_const: false }
    }

    /// A new Sass error carrying a message; the text must pass as a C string.
    pub fn sass_error(input: &str) -> (v: SassValue)
        requires
            no_nul_char(input@),
        ensures
            v.raw matches RawValue::Error(s) && s@ == input@,
            !v.is_const,
    {
        SassValue { raw: RawValue::Error(input.to_owned()), is_const: false }
    }

    /// The value to hand to libsass, if the library made it.
    pub fn as_raw(&self) -> (r: Option<&RawValue>)
        ensures
            r is Some <==> !self.is_const,
            r matches Some(x) ==> *x == self.raw,
    {
        if self.is_const {
            None
        } else {
            Some(&self.raw)
        }
    }

    /// The text of a string value.
    pub fn to_string(&self) -> (r: Option<String>)
        ensures
            r is Some <==> self.raw is String,
            r matches Some(s) ==> (self.raw matches RawValue::String(t) && s@ == t@),
    {
        match &self.raw {
            RawValue::String(s) => Some(s.clone()),
            _ => None,
        }
    }

    /// The texts of the string elements of a list value.
    pub fn to_vec_string(&self) -> (r: Option<Vec<String>>)
        ensures
            r is Some <==> self.raw is List,
            r matches Some(v) ==> (self.raw matches RawValue::List(items) && views(v@)
                == string_items(items@)),
    {
        match &self.raw {
            RawValue::List(items) => {
                let mut out: Vec<String> = Vec::new();
                let mut i: usize = 0;
                while i < items.len()
                    invariant
                        i <= items@.len(),
                        views(out@) == string_items(items@.take(i as int)),
                    decreases items@.len() - i,
                {
                    assert(items@.take(i as int + 1).drop_last() =~= items@.take(i as int));
                    assert(items@.take(i as int + 1).last() == items@[i as int]);
                    match &items[i] {
                        RawValue::String(s) => {
                            out.push(s.clone());
                            assert(views(out@) =~= string_items(items@.take(i as int + 1)));
                        },
                        _ => {},
                    }
                    i = i + 1;
                }
                assert(items@.take(i as int) =~= items@);
                Some(out)
            },
            _ => None,
        }
    }

    /// The text of the string at position `index` of a list value.
    pub fn list_nth_to_string(&self, index: usize) -> (r: Option<String>)
        ensures
            r is Some <==> (self.raw matches RawValue::List(items) && index < items@.len()
                && items@[index as int] is String),
            r matches Some(s) ==> (self.raw matches RawValue::List(items)
                && items@[index as int] matches RawValue::String(t) && s@ == t@),
    {
        match &self.raw {
            RawValue::List(items) => {
                if index >= items.len() {
                    None
                } else {
                    match &items[index] {
                        RawValue::String(s) => Some(s.clone()),
                        _ => None,
                    }
                }
            },
            _ => None,
        }
    }

    /// The printed form of the value.
    pub fn render(&self) -> (s: String)
        ensures
            s@ == rendered(self.raw),
    {
        render_raw(&self.raw)
    }
}

} // verus!
