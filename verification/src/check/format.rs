//! The text of values, as the trace shows them: nested parts on lines of
//! their own, indented two spaces a level. A signature is shown by a space
//! and its name in parentheses, a function by its name; the names come from
//! the resolver, and a value that mentions an identifier the resolver does
//! not know has no text.
use vstd::prelude::*;
use crate::check::items::{map_get, tail, IdMap, IdSet, Items};
use crate::check::names::{name_text, span_name};
use crate::check::resolver::Resolver;
use crate::check::value::{
    ConjuredFunctionValue, ConjuredSignatureValue, FunctionConjuration, FunctionLambda, FunctionValue,
    KnownFunctionValue, KnownSignatureValue, LambdaDependencies, LambdaDependencyValues, SignatureConjuration,
    SignatureLambda, SignatureValue, UnknownFunctionValue, UnknownSignatureValue,
};
use crate::check::evaluate::TraceEntry;
use crate::location::str_chars;
use crate::source::Source;

verus! {

/// Text written line by line, each new line indented to the current level.
pub struct IndentingFormatter {
    pub indentation: usize,
    pub buf: Vec<char>,
}

/// Two spaces for each level.
pub open spec fn indentation_text(level: nat) -> Seq<char>
    decreases level,
{
    if level == 0 {
        Seq::empty()
    } else {
        indentation_text((level - 1) as nat) + seq![' ', ' ']
    }
}

/// A line break, then the indentation of `level`.
pub open spec fn new_line_text(level: nat) -> Seq<char> {
    seq!['\n'] + indentation_text(level)
}

impl IndentingFormatter {
    /// An empty text at level zero.
    pub fn new() -> (f: IndentingFormatter)
        ensures
            f.indentation == 0,
            f.buf@ == Seq::<char>::empty(),
    {
        IndentingFormatter { indentation: 0, buf: Vec::new() }
    }

    /// Starts a new line at the current level.
    pub fn new_line(&mut self)
        ensures
            final(self).indentation == old(self).indentation,
            final(self).buf@ == old(self).buf@ + new_line_text(old(self).indentation as nat),
    {
        self.buf.push('\n');
        let mut i: usize = 0;
        while i < self.indentation
            invariant
                i <= self.indentation,
                self.indentation == old(self).indentation,
                self.buf@ == old(self).buf@ + new_line_text(i as nat),
            decreases self.indentation - i,
        {
            self.buf.push(' ');
            self.buf.push(' ');
            i = i + 1;
            assert(self.buf@ =~= old(self).buf@ + new_line_text(i as nat));
        }
    }

    /// Runs `f` on the text one level deeper, then goes back to the level it
    /// found: the text is what `f` leaves, and the result is `f`'s.
    pub fn indented<R, F: FnOnce(IndentingFormatter) -> (IndentingFormatter, R)>(&mut self, f: F) -> (r: R)
        requires
            old(self).indentation < usize::MAX,
            forall|g: IndentingFormatter|
                g.indentation == old(self).indentation + 1 && g.buf@ == old(self).buf@ ==> call_requires(f, (g,)),
        ensures
            final(self).indentation == old(self).indentation,
            exists|g: IndentingFormatter, out: (IndentingFormatter, R)|
                #![trigger call_ensures(f, (g,), out)]
                g.indentation == old(self).indentation + 1 && g.buf@ == old(self).buf@ && call_ensures(f, (g,), out)
                    && final(self).buf@ == out.0.buf@ && r == out.1,
    {
        let level = self.indentation;
        let mut inner = IndentingFormatter { indentation: 0, buf: Vec::new() };
        std::mem::swap(self, &mut inner);
        inner.indentation = level + 1;
        let ghost g = inner;
        let out = f(inner);
        let ghost o = out;
        let (mut after, r) = out;
        after.indentation = level;
        std::mem::swap(self, &mut after);
        assert(call_ensures(f, (g,), o));
        r
    }

    /// Appends `s`.
    pub fn write_str(&mut self, s: &str)
        ensures
            final(self).indentation == old(self).indentation,
            final(self).buf@ == old(self).buf@ + s@,
    {
        let chars = str_chars(s);
        self.write_chars(&chars);
    }

    /// Appends `s`.
    pub fn write_chars(&mut self, s: &Vec<char>)
        ensures
            final(self).indentation == old(self).indentation,
            final(self).buf@ == old(self).buf@ + s@,
    {
        let mut i: usize = 0;
        while i < s.len()
            invariant
                i <= s@.len(),
                self.indentation == old(self).indentation,
                self.buf@ == old(self).buf@ + s@.subrange(0, i as int),
            decreases s@.len() - i,
        {
            self.buf.push(s[i]);
            i = i + 1;
            assert(self.buf@ =~= old(self).buf@ + s@.subrange(0, i as int));
        }
        assert(s@.subrange(0, s@.len() as int) =~= s@);
    }

    /// One level deeper, unless the level is at its limit.
    fn indent(&mut self) -> (ok: bool)
        ensures
            final(self).buf == old(self).buf,
            ok == (old(self).indentation < usize::MAX),
            ok ==> final(self).indentation == old(self).indentation + 1,
            !ok ==> final(self).indentation == old(self).indentation,
    {
        if self.indentation < usize::MAX {
            self.indentation = self.indentation + 1;
            true
        } else {
            false
        }
    }
}

/// The text of signature `id`: a space and its name in parentheses.
pub open spec fn signature_label(source: &Source, resolver: Resolver, id: u64, acc: Seq<char>) -> Option<Seq<char>> {
    match map_get(resolver.signatures, id) {
        Some(d) => Some(acc + seq![' '] + span_name(source, d.signature.with_parens)),
        None => None,
    }
}

/// The text of function `id`: its name.
pub open spec fn function_label(source: &Source, resolver: Resolver, id: u64, acc: Seq<char>) -> Option<Seq<char>> {
    match map_get(resolver.functions, id) {
        Some(d) => Some(acc + span_name(source, d.function)),
        None => None,
    }
}

pub fn write_signature_label(out: &mut IndentingFormatter, source: &Source, resolver: &Resolver, id: u64) -> (ok: bool)
    ensures
        final(out).indentation == old(out).indentation,
        match signature_label(source, *resolver, id, old(out).buf@) {
            Some(t) => ok && final(out).buf@ == t,
            None => !ok,
        },
{
    match resolver.signature(id) {
        Some(name) => {
            out.write_str(" ");
            proof {
                reveal_strlit(" ");
            }
            out.write_chars(&name_text(source, name.with_parens));
            assert(out.buf@ =~= old(out).buf@ + seq![' '] + span_name(source, name.with_parens));
            true
        },
        None => false,
    }
}

pub fn write_function_label(out: &mut IndentingFormatter, source: &Source, resolver: &Resolver, id: u64) -> (ok: bool)
    ensures
        final(out).indentation == old(out).indentation,
        match function_label(source, *resolver, id, old(out).buf@) {
            Some(t) => ok && final(out).buf@ == t,
            None => !ok,
        },
{
    match resolver.function(id) {
        Some(name) => {
            out.write_chars(&name_text(source, name));
            true
        },
        None => false,
    }
}

pub open spec fn fmt_taking_signatures(source: &Source, resolver: Resolver, level: nat, x: IdSet, acc: Seq<char>) -> Option<Seq<char>>
    decreases x,
{
    match x {
        Items::Nil => Some(acc),
        Items::Cons(e, rest) => {
            let acc = acc + new_line_text(level) + "taking "@;
            match signature_label(source, resolver, *e, acc) {
                None => None,
                Some(acc) => fmt_taking_signatures(source, resolver, level, *rest, acc),
            }
        },
    }
}

/// A line `taking` for each taken signature.
pub fn write_taking_signatures(out: &mut IndentingFormatter, source: &Source, resolver: &Resolver, x: &IdSet) -> (ok: bool)
    ensures
        final(out).indentation == old(out).indentation,
        match fmt_taking_signatures(source, *resolver, old(out).indentation as nat, *x, old(out).buf@) {
            Some(t) => ok && final(out).buf@ == t,
            None => !ok,
        },
    decreases x,
{
    match x {
        Items::Nil => true,
        Items::Cons(e, rest) => {
            out.new_line();
            out.write_str("taking ");
            if !write_signature_label(out, source, resolver, **e) {
                return false;
            }
            write_taking_signatures(out, source, resolver, &**rest)
        },
    }
}

pub open spec fn fmt_taking_functions(source: &Source, resolver: Resolver, level: nat, x: IdMap<SignatureValue>, acc: Seq<char>) -> Option<Seq<char>>
    decreases x,
{
    match x {
        Items::Nil => Some(acc),
        Items::Cons(e, rest) => {
            let acc = acc + new_line_text(level) + "taking "@;
            match function_label(source, resolver, e.0, acc) {
                None => None,
                Some(acc) => {
                    let acc = acc + " of signature "@;
                    match fmt_signature_value(source, resolver, level, e.1, acc) {
                        None => None,
                        Some(acc) => fmt_taking_functions(source, resolver, level, *rest, acc),
                    }
                },
            }
        },
    }
}

/// A line `taking` for each taken function, with its signature.
pub fn write_taking_functions(out: &mut IndentingFormatter, source: &Source, resolver: &Resolver, x: &IdMap<SignatureValue>) -> (ok: bool)
    ensures
        final(out).indentation == old(out).indentation,
        match fmt_taking_functions(source, *resolver, old(out).indentation as nat, *x, old(out).buf@) {
            Some(t) => ok && final(out).buf@ == t,
            None => !ok,
        },
    decreases x,
{
    match x {
        Items::Nil => true,
        Items::Cons(e, rest) => {
            out.new_line();
            out.write_str("taking ");
            if !write_function_label(out, source, resolver, e.0) {
                return false;
            }
            out.write_str(" of signature ");
            if !write_signature_value(out, source, resolver, &e.1) {
                return false;
            }
            write_taking_functions(out, source, resolver, &**rest)
        },
    }
}

pub open spec fn fmt_conjured_signatures(source: &Source, resolver: Resolver, level: nat, x: IdMap<SignatureConjuration>, acc: Seq<char>) -> Option<Seq<char>>
    decreases x,
{
    match x {
        Items::Nil => Some(acc),
        Items::Cons(e, rest) => {
            let acc = acc + new_line_text(level);
            match signature_label(source, resolver, e.0, acc) {
                None => None,
                Some(acc) => {
                    let acc = acc + " => "@;
                    match fmt_signature_conjuration(source, resolver, level, e.1, acc) {
                        None => None,
                        Some(acc) => fmt_conjured_signatures(source, resolver, level, *rest, acc),
                    }
                },
            }
        },
    }
}

/// A line for each conjured signature.
pub fn write_conjured_signatures(out: &mut IndentingFormatter, source: &Source, resolver: &Resolver, x: &IdMap<SignatureConjuration>) -> (ok: bool)
    ensures
        final(out).indentation == old(out).indentation,
        match fmt_conjured_signatures(source, *resolver, old(out).indentation as nat, *x, old(out).buf@) {
            Some(t) => ok && final(out).buf@ == t,
            None => !ok,
        },
    decreases x,
{
    match x {
        Items::Nil => true,
        Items::Cons(e, rest) => {
            out.new_line();
            if !write_signature_label(out, source, resolver, e.0) {
                return false;
            }
            out.write_str(" => ");
            if !write_signature_conjuration(out, source, resolver, &e.1) {
                return false;
            }
            write_conjured_signatures(out, source, resolver, &**rest)
        },
    }
}

pub open spec fn fmt_conjured_functions(source: &Source, resolver: Resolver, level: nat, x: IdMap<FunctionConjuration>, acc: Seq<char>) -> Option<Seq<char>>
    decreases x,
{
    match x {
        Items::Nil => Some(acc),
        Items::Cons(e, rest) => {
            let acc = acc + new_line_text(level);
            match function_label(source, resolver, e.0, acc) {
                None => None,
                Some(acc) => {
                    let acc = acc + " => "@;
                    match fmt_function_conjuration(source, resolver, level, e.1, acc) {
                        None => None,
                        Some(acc) => fmt_conjured_functions(source, resolver, level, *rest, acc),
                    }
                },
            }
        },
    }
}

/// A line for each conjured function.
pub fn write_conjured_functions(out: &mut IndentingFormatter, source: &Source, resolver: &Resolver, x: &IdMap<FunctionConjuration>) -> (ok: bool)
    ensures
        final(out).indentation == old(out).indentation,
        match fmt_conjured_functions(source, *resolver, old(out).indentation as nat, *x, old(out).buf@) {
            Some(t) => ok && final(out).buf@ == t,
            None => !ok,
        },
    decreases x,
{
    match x {
        Items::Nil => true,
        Items::Cons(e, rest) => {
            out.new_line();
            if !write_function_label(out, source, resolver, e.0) {
                return false;
            }
            out.write_str(" => ");
            if !write_function_conjuration(out, source, resolver, &e.1) {
                return false;
            }
            write_conjured_functions(out, source, resolver, &**rest)
        },
    }
}

pub open spec fn fmt_given_signatures(source: &Source, resolver: Resolver, level: nat, x: IdMap<SignatureLambda>, acc: Seq<char>) -> Option<Seq<char>>
    decreases x,
{
    match x {
        Items::Nil => Some(acc),
        Items::Cons(e, rest) => {
            let acc = acc + new_line_text(level);
            match signature_label(source, resolver, e.0, acc) {
                None => None,
                Some(acc) => {
                    let acc = acc + " => "@;
                    match fmt_signature_lambda(source, resolver, level, e.1, acc) {
                        None => None,
                        Some(acc) => fmt_given_signatures(source, resolver, level, *rest, acc),
                    }
                },
            }
        },
    }
}

/// A line for each given signature.
pub fn write_given_signatures(out: &mut IndentingFormatter, source: &Source, resolver: &Resolver, x: &IdMap<SignatureLambda>) -> (ok: bool)
    ensures
        final(out).indentation == old(out).indentation,
        match fmt_given_signatures(source, *resolver, old(out).indentation as nat, *x, old(out).buf@) {
            Some(t) => ok && final(out).buf@ == t,
            None => !ok,
        },
    decreases x,
{
    match x {
        Items::Nil => true,
        Items::Cons(e, rest) => {
            out.new_line();
            if !write_signature_label(out, source, resolver, e.0) {
                return false;
            }
            out.write_str(" => ");
            if !write_signature_lambda(out, source, resolver, &e.1) {
                return false;
            }
            write_given_signatures(out, source, resolver, &**rest)
        },
    }
}

pub open spec fn fmt_given_functions(source: &Source, resolver: Resolver, level: nat, x: IdMap<FunctionLambda>, acc: Seq<char>) -> Option<Seq<char>>
    decreases x,
{
    match x {
        Items::Nil => Some(acc),
        Items::Cons(e, rest) => {
            let acc = acc + new_line_text(level);
            match function_label(source, resolver, e.0, acc) {
                None => None,
                Some(acc) => {
                    let acc = acc + " => "@;
                    match fmt_function_lambda(source, resolver, level, e.1, acc) {
                        None => None,
                        Some(acc) => fmt_given_functions(source, resolver, level, *rest, acc),
                    }
                },
            }
        },
    }
}

/// A line for each given function.
pub fn write_given_functions(out: &mut IndentingFormatter, source: &Source, resolver: &Resolver, x: &IdMap<FunctionLambda>) -> (ok: bool)
    ensures
        final(out).indentation == old(out).indentation,
        match fmt_given_functions(source, *resolver, old(out).indentation as nat, *x, old(out).buf@) {
            Some(t) => ok && final(out).buf@ == t,
            None => !ok,
        },
    decreases x,
{
    match x {
        Items::Nil => true,
        Items::Cons(e, rest) => {
            out.new_line();
            if !write_function_label(out, source, resolver, e.0) {
                return false;
            }
            out.write_str(" => ");
            if !write_function_lambda(out, source, resolver, &e.1) {
                return false;
            }
            write_given_functions(out, source, resolver, &**rest)
        },
    }
}

pub open spec fn fmt_spaced_signatures(source: &Source, resolver: Resolver, level: nat, x: IdSet, acc: Seq<char>) -> Option<Seq<char>>
    decreases x,
{
    match x {
        Items::Nil => Some(acc),
        Items::Cons(e, rest) => {
            let acc = acc + " "@;
            match signature_label(source, resolver, *e, acc) {
                None => None,
                Some(acc) => fmt_spaced_signatures(source, resolver, level, *rest, acc),
            }
        },
    }
}

/// Each signature, after a space.
pub fn write_spaced_signatures(out: &mut IndentingFormatter, source: &Source, resolver: &Resolver, x: &IdSet) -> (ok: bool)
    ensures
        final(out).indentation == old(out).indentation,
        match fmt_spaced_signatures(source, *resolver, old(out).indentation as nat, *x, old(out).buf@) {
            Some(t) => ok && final(out).buf@ == t,
            None => !ok,
        },
    decreases x,
{
    match x {
        Items::Nil => true,
        Items::Cons(e, rest) => {
            out.write_str(" ");
            if !write_signature_label(out, source, resolver, **e) {
                return false;
            }
            write_spaced_signatures(out, source, resolver, &**rest)
        },
    }
}

pub open spec fn fmt_spaced_functions(source: &Source, resolver: Resolver, level: nat, x: IdMap<SignatureValue>, acc: Seq<char>) -> Option<Seq<char>>
    decreases x,
{
    match x {
        Items::Nil => Some(acc),
        Items::Cons(e, rest) => {
            let acc = acc + " "@;
            match function_label(source, resolver, e.0, acc) {
                None => None,
                Some(acc) => fmt_spaced_functions(source, resolver, level, *rest, acc),
            }
        },
    }
}

/// Each function, after a space.
pub fn write_spaced_functions(out: &mut IndentingFormatter, source: &Source, resolver: &Resolver, x: &IdMap<SignatureValue>) -> (ok: bool)
    ensures
        final(out).indentation == old(out).indentation,
        match fmt_spaced_functions(source, *resolver, old(out).indentation as nat, *x, old(out).buf@) {
            Some(t) => ok && final(out).buf@ == t,
            None => !ok,
        },
    decreases x,
{
    match x {
        Items::Nil => true,
        Items::Cons(e, rest) => {
            out.write_str(" ");
            if !write_function_label(out, source, resolver, e.0) {
                return false;
            }
            write_spaced_functions(out, source, resolver, &**rest)
        },
    }
}

pub open spec fn fmt_signature_values(source: &Source, resolver: Resolver, level: nat, x: IdMap<SignatureValue>, acc: Seq<char>) -> Option<Seq<char>>
    decreases x,
{
    match x {
        Items::Nil => Some(acc),
        Items::Cons(e, rest) => {
            let acc = acc + new_line_text(level);
            match signature_label(source, resolver, e.0, acc) {
                None => None,
                Some(acc) => {
                    let acc = acc + " = "@;
                    match fmt_signature_value(source, resolver, level, e.1, acc) {
                        None => None,
                        Some(acc) => fmt_signature_values(source, resolver, level, *rest, acc),
                    }
                },
            }
        },
    }
}

/// A line `= value` for each signature.
pub fn write_signature_values(out: &mut IndentingFormatter, source: &Source, resolver: &Resolver, x: &IdMap<SignatureValue>) -> (ok: bool)
    ensures
        final(out).indentation == old(out).indentation,
        match fmt_signature_values(source, *resolver, old(out).indentation as nat, *x, old(out).buf@) {
            Some(t) => ok && final(out).buf@ == t,
            None => !ok,
        },
    decreases x,
{
    match x {
        Items::Nil => true,
        Items::Cons(e, rest) => {
            out.new_line();
            if !write_signature_label(out, source, resolver, e.0) {
                return false;
            }
            out.write_str(" = ");
            if !write_signature_value(out, source, resolver, &e.1) {
                return false;
            }
            write_signature_values(out, source, resolver, &**rest)
        },
    }
}

pub open spec fn fmt_function_values(source: &Source, resolver: Resolver, level: nat, x: IdMap<FunctionValue>, acc: Seq<char>) -> Option<Seq<char>>
    decreases x,
{
    match x {
        Items::Nil => Some(acc),
        Items::Cons(e, rest) => {
            let acc = acc + new_line_text(level);
            match function_label(source, resolver, e.0, acc) {
                None => None,
                Some(acc) => {
                    let acc = acc + " = "@;
                    match fmt_function_value(source, resolver, level, e.1, acc) {
                        None => None,
                        Some(acc) => fmt_function_values(source, resolver, level, *rest, acc),
                    }
                },
            }
        },
    }
}

/// A line `= value` for each function.
pub fn write_function_values(out: &mut IndentingFormatter, source: &Source, resolver: &Resolver, x: &IdMap<FunctionValue>) -> (ok: bool)
    ensures
        final(out).indentation == old(out).indentation,
        match fmt_function_values(source, *resolver, old(out).indentation as nat, *x, old(out).buf@) {
            Some(t) => ok && final(out).buf@ == t,
            None => !ok,
        },
    decreases x,
{
    match x {
        Items::Nil => true,
        Items::Cons(e, rest) => {
            out.new_line();
            if !write_function_label(out, source, resolver, e.0) {
                return false;
            }
            out.write_str(" = ");
            if !write_function_value(out, source, resolver, &e.1) {
                return false;
            }
            write_function_values(out, source, resolver, &**rest)
        },
    }
}

pub open spec fn fmt_known_signature(source: &Source, resolver: Resolver, level: nat, x: KnownSignatureValue, acc: Seq<char>) -> Option<Seq<char>>
    decreases x,
{
    {
        let acc = acc + "known signature"@;
        if level >= usize::MAX {
            None
        } else {
            match fmt_taking_signatures(source, resolver, (level + 1) as nat, x.taken_signatures, acc) {
                None => None,
                Some(acc) => match fmt_taking_functions(source, resolver, (level + 1) as nat, x.taken_functions, acc) {
                    None => None,
                    Some(acc) => match fmt_conjured_signatures(source, resolver, (level + 1) as nat, x.conjured_signatures, acc) {
                        None => None,
                        Some(acc) => fmt_conjured_functions(source, resolver, (level + 1) as nat, x.conjured_functions, acc),
                    },
                },
            }
        }
    }
}

/// A known signature: what it takes and what it conjures, a line each.
pub fn write_known_signature(out: &mut IndentingFormatter, source: &Source, resolver: &Resolver, x: &KnownSignatureValue) -> (ok: bool)
    ensures
        final(out).indentation == old(out).indentation,
        match fmt_known_signature(source, *resolver, old(out).indentation as nat, *x, old(out).buf@) {
            Some(t) => ok && final(out).buf@ == t,
            None => !ok,
        },
    decreases x,
{
    out.write_str("known signature");
    let level = out.indentation;
    if !out.indent() {
        return false;
    }
    if !write_taking_signatures(out, source, resolver, &x.taken_signatures) {
        out.indentation = level;
        return false;
    }
    if !write_taking_functions(out, source, resolver, &x.taken_functions) {
        out.indentation = level;
        return false;
    }
    if !write_conjured_signatures(out, source, resolver, &x.conjured_signatures) {
        out.indentation = level;
        return false;
    }
    if !write_conjured_functions(out, source, resolver, &x.conjured_functions) {
        out.indentation = level;
        return false;
    }
    out.indentation = level;
    true
}

pub open spec fn fmt_known_function(source: &Source, resolver: Resolver, level: nat, x: KnownFunctionValue, acc: Seq<char>) -> Option<Seq<char>>
    decreases x,
{
    {
        let acc = acc + "known function"@;
        if level >= usize::MAX {
            None
        } else {
            match fmt_taking_signatures(source, resolver, (level + 1) as nat, x.taken_signatures, acc) {
                None => None,
                Some(acc) => match fmt_taking_functions(source, resolver, (level + 1) as nat, x.taken_functions, acc) {
                    None => None,
                    Some(acc) => match fmt_given_signatures(source, resolver, (level + 1) as nat, x.given_signatures, acc) {
                        None => None,
                        Some(acc) => fmt_given_functions(source, resolver, (level + 1) as nat, x.given_functions, acc),
                    },
                },
            }
        }
    }
}

/// A known function: what it takes and what it gives, a line each.
pub fn write_known_function(out: &mut IndentingFormatter, source: &Source, resolver: &Resolver, x: &KnownFunctionValue) -> (ok: bool)
    ensures
        final(out).indentation == old(out).indentation,
        match fmt_known_function(source, *resolver, old(out).indentation as nat, *x, old(out).buf@) {
            Some(t) => ok && final(out).buf@ == t,
            None => !ok,
        },
    decreases x,
{
    out.write_str("known function");
    let level = out.indentation;
    if !out.indent() {
        return false;
    }
    if !write_taking_signatures(out, source, resolver, &x.taken_signatures) {
        out.indentation = level;
        return false;
    }
    if !write_taking_functions(out, source, resolver, &x.taken_functions) {
        out.indentation = level;
        return false;
    }
    if !write_given_signatures(out, source, resolver, &x.given_signatures) {
        out.indentation = level;
        return false;
    }
    if !write_given_functions(out, source, resolver, &x.given_functions) {
        out.indentation = level;
        return false;
    }
    out.indentation = level;
    true
}

pub open spec fn fmt_signature_conjuration(source: &Source, resolver: Resolver, level: nat, x: SignatureConjuration, acc: Seq<char>) -> Option<Seq<char>>
    decreases x,
{
    {
        let acc = acc + "Lambda "@;
        match fmt_dependencies(source, resolver, level, x.dependencies, acc) {
            None => None,
            Some(acc) => Some(acc + ". conjured signature"@),
        }
    }
}

/// A conjured signature, after what it depends on.
pub fn write_signature_conjuration(out: &mut IndentingFormatter, source: &Source, resolver: &Resolver, x: &SignatureConjuration) -> (ok: bool)
    ensures
        final(out).indentation == old(out).indentation,
        match fmt_signature_conjuration(source, *resolver, old(out).indentation as nat, *x, old(out).buf@) {
            Some(t) => ok && final(out).buf@ == t,
            None => !ok,
        },
    decreases x,
{
    out.write_str("Lambda ");
    if !write_dependencies(out, source, resolver, &x.dependencies) {
        return false;
    }
    out.write_str(". conjured signature");
    true
}

pub open spec fn fmt_function_conjuration(source: &Source, resolver: Resolver, level: nat, x: FunctionConjuration, acc: Seq<char>) -> Option<Seq<char>>
    decreases x,
{
    {
        let acc = acc + "Lambda "@;
        match fmt_dependencies(source, resolver, level, x.dependencies, acc) {
            None => None,
            Some(acc) => {
                let acc = acc + ". conjured function of signature "@;
                fmt_signature_value(source, resolver, level, x.signature, acc)
            },
        }
    }
}

/// A conjured function, after what it depends on, with its signature.
pub fn write_function_conjuration(out: &mut IndentingFormatter, source: &Source, resolver: &Resolver, x: &FunctionConjuration) -> (ok: bool)
    ensures
        final(out).indentation == old(out).indentation,
        match fmt_function_conjuration(source, *resolver, old(out).indentation as nat, *x, old(out).buf@) {
            Some(t) => ok && final(out).buf@ == t,
            None => !ok,
        },
    decreases x,
{
    out.write_str("Lambda ");
    if !write_dependencies(out, source, resolver, &x.dependencies) {
        return false;
    }
    out.write_str(". conjured function of signature ");
    write_signature_value(out, source, resolver, &x.signature)
}

pub open spec fn fmt_signature_lambda(source: &Source, resolver: Resolver, level: nat, x: SignatureLambda, acc: Seq<char>) -> Option<Seq<char>>
    decreases x,
{
    {
        let acc = acc + "Lambda "@;
        match fmt_dependencies(source, resolver, level, x.dependencies, acc) {
            None => None,
            Some(acc) => {
                let acc = acc + ". "@;
                fmt_signature_value(source, resolver, level, x.signature, acc)
            },
        }
    }
}

/// A lambda: what it depends on, then its value.
pub fn write_signature_lambda(out: &mut IndentingFormatter, source: &Source, resolver: &Resolver, x: &SignatureLambda) -> (ok: bool)
    ensures
        final(out).indentation == old(out).indentation,
        match fmt_signature_lambda(source, *resolver, old(out).indentation as nat, *x, old(out).buf@) {
            Some(t) => ok && final(out).buf@ == t,
            None => !ok,
        },
    decreases x,
{
    out.write_str("Lambda ");
    if !write_dependencies(out, source, resolver, &x.dependencies) {
        return false;
    }
    out.write_str(". ");
    write_signature_value(out, source, resolver, &x.signature)
}

pub open spec fn fmt_function_lambda(source: &Source, resolver: Resolver, level: nat, x: FunctionLambda, acc: Seq<char>) -> Option<Seq<char>>
    decreases x,
{
    {
        let acc = acc + "Lambda "@;
        match fmt_dependencies(source, resolver, level, x.dependencies, acc) {
            None => None,
            Some(acc) => {
                let acc = acc + ". "@;
                fmt_function_value(source, resolver, level, x.function, acc)
            },
        }
    }
}

/// A lambda: what it depends on, then its value.
pub fn write_function_lambda(out: &mut IndentingFormatter, source: &Source, resolver: &Resolver, x: &FunctionLambda) -> (ok: bool)
    ensures
        final(out).indentation == old(out).indentation,
        match fmt_function_lambda(source, *resolver, old(out).indentation as nat, *x, old(out).buf@) {
            Some(t) => ok && final(out).buf@ == t,
            None => !ok,
        },
    decreases x,
{
    out.write_str("Lambda ");
    if !write_dependencies(out, source, resolver, &x.dependencies) {
        return false;
    }
    out.write_str(". ");
    write_function_value(out, source, resolver, &x.function)
}

pub open spec fn fmt_dependency_values(source: &Source, resolver: Resolver, level: nat, x: LambdaDependencyValues, acc: Seq<char>) -> Option<Seq<char>>
    decreases x,
{
    match fmt_signature_values(source, resolver, level, tail(x.signatures), acc) {
        None => None,
        Some(acc) => fmt_function_values(source, resolver, level, tail(x.functions), acc),
    }
}

/// The values of the dependencies, a line each, without the first signature
/// and the first function.
pub fn write_dependency_values(out: &mut IndentingFormatter, source: &Source, resolver: &Resolver, x: &LambdaDependencyValues) -> (ok: bool)
    ensures
        final(out).indentation == old(out).indentation,
        match fmt_dependency_values(source, *resolver, old(out).indentation as nat, *x, old(out).buf@) {
            Some(t) => ok && final(out).buf@ == t,
            None => !ok,
        },
    decreases x,
{
    if !write_signature_values(out, source, resolver, &tail_of(&x.signatures)) {
        return false;
    }
    write_function_values(out, source, resolver, &tail_of(&x.functions))
}

pub open spec fn fmt_conjured_signature_value(source: &Source, resolver: Resolver, level: nat, x: ConjuredSignatureValue, acc: Seq<char>) -> Option<Seq<char>>
    decreases x,
{
    {
        let acc = acc + "conjured signature "@;
        match signature_label(source, resolver, x.conjured_signature.0, acc) {
            None => None,
            Some(acc) => if level >= usize::MAX {
                None
            } else {
                {
                    let acc = acc + new_line_text((level + 1) as nat) + "unknown function: "@;
                    match fmt_unknown_function(source, resolver, (level + 1) as nat, x.unknown_function, acc) {
                        None => None,
                        Some(acc) => {
                            let acc = acc + "dependency values:"@;
                            if level + 1 >= usize::MAX {
                                None
                            } else {
                                fmt_dependency_values(source, resolver, (level + 2) as nat, x.conjure_dependency_values, acc)
                            }
                        },
                    }
                }
            },
        }
    }
}

/// A signature that an unknown function gives: the function, then the values
/// of the dependencies.
pub fn write_conjured_signature_value(out: &mut IndentingFormatter, source: &Source, resolver: &Resolver, x: &ConjuredSignatureValue) -> (ok: bool)
    ensures
        final(out).indentation == old(out).indentation,
        match fmt_conjured_signature_value(source, *resolver, old(out).indentation as nat, *x, old(out).buf@) {
            Some(t) => ok && final(out).buf@ == t,
            None => !ok,
        },
    decreases x,
{
    out.write_str("conjured signature ");
    if !write_signature_label(out, source, resolver, x.conjured_signature.0) {
        return false;
    }
    let level = out.indentation;
    if !out.indent() {
        return false;
    }
    out.new_line();
    out.write_str("unknown function: ");
    if !write_unknown_function(out, source, resolver, &x.unknown_function) {
        out.indentation = level;
        return false;
    }
    out.write_str("dependency values:");
    let inner = out.indentation;
    if !out.indent() {
        out.indentation = level;
        return false;
    }
    if !write_dependency_values(out, source, resolver, &x.conjure_dependency_values) {
        out.indentation = level;
        return false;
    }
    out.indentation = inner;
    out.indentation = level;
    true
}

pub open spec fn fmt_conjured_function_value(source: &Source, resolver: Resolver, level: nat, x: ConjuredFunctionValue, acc: Seq<char>) -> Option<Seq<char>>
    decreases x,
{
    {
        let acc = acc + "conjured function "@;
        match function_label(source, resolver, x.conjured_function.0, acc) {
            None => None,
            Some(acc) => if level >= usize::MAX {
                None
            } else {
                {
                    let acc = acc + new_line_text((level + 1) as nat) + "unknown function: "@;
                    match fmt_unknown_function(source, resolver, (level + 1) as nat, x.unknown_function, acc) {
                        None => None,
                        Some(acc) => {
                            let acc = acc + new_line_text((level + 1) as nat) + "dependency values:"@;
                            if level + 1 >= usize::MAX {
                                None
                            } else {
                                fmt_dependency_values(source, resolver, (level + 2) as nat, x.conjure_dependency_values, acc)
                            }
                        },
                    }
                }
            },
        }
    }
}

/// A function that an unknown function gives: the function, then the values
/// of the dependencies.
pub fn write_conjured_function_value(out: &mut IndentingFormatter, source: &Source, resolver: &Resolver, x: &ConjuredFunctionValue) -> (ok: bool)
    ensures
        final(out).indentation == old(out).indentation,
        match fmt_conjured_function_value(source, *resolver, old(out).indentation as nat, *x, old(out).buf@) {
            Some(t) => ok && final(out).buf@ == t,
            None => !ok,
        },
    decreases x,
{
    out.write_str("conjured function ");
    if !write_function_label(out, source, resolver, x.conjured_function.0) {
        return false;
    }
    let level = out.indentation;
    if !out.indent() {
        return false;
    }
    out.new_line();
    out.write_str("unknown function: ");
    if !write_unknown_function(out, source, resolver, &x.unknown_function) {
        out.indentation = level;
        return false;
    }
    out.new_line();
    out.write_str("dependency values:");
    let inner = out.indentation;
    if !out.indent() {
        out.indentation = level;
        return false;
    }
    if !write_dependency_values(out, source, resolver, &x.conjure_dependency_values) {
        out.indentation = level;
        return false;
    }
    out.indentation = inner;
    out.indentation = level;
    true
}

pub open spec fn fmt_signature_value(source: &Source, resolver: Resolver, level: nat, x: SignatureValue, acc: Seq<char>) -> Option<Seq<char>>
    decreases x,
{
    match x {
        SignatureValue::Known(k) => fmt_known_signature(source, resolver, level, *k, acc),
        SignatureValue::Unknown(u) => fmt_unknown_signature(source, resolver, level, u, acc),
    }
}

/// A signature value.
pub fn write_signature_value(out: &mut IndentingFormatter, source: &Source, resolver: &Resolver, x: &SignatureValue) -> (ok: bool)
    ensures
        final(out).indentation == old(out).indentation,
        match fmt_signature_value(source, *resolver, old(out).indentation as nat, *x, old(out).buf@) {
            Some(t) => ok && final(out).buf@ == t,
            None => !ok,
        },
    decreases x,
{
    match x {
        SignatureValue::Known(k) => write_known_signature(out, source, resolver, &**k),
        SignatureValue::Unknown(u) => write_unknown_signature(out, source, resolver, u),
    }
}

pub open spec fn fmt_function_value(source: &Source, resolver: Resolver, level: nat, x: FunctionValue, acc: Seq<char>) -> Option<Seq<char>>
    decreases x,
{
    match x {
        FunctionValue::Known(k) => fmt_known_function(source, resolver, level, *k, acc),
        FunctionValue::Unknown(u) => fmt_unknown_function(source, resolver, level, u, acc),
    }
}

/// A function value.
pub fn write_function_value(out: &mut IndentingFormatter, source: &Source, resolver: &Resolver, x: &FunctionValue) -> (ok: bool)
    ensures
        final(out).indentation == old(out).indentation,
        match fmt_function_value(source, *resolver, old(out).indentation as nat, *x, old(out).buf@) {
            Some(t) => ok && final(out).buf@ == t,
            None => !ok,
        },
    decreases x,
{
    match x {
        FunctionValue::Known(k) => write_known_function(out, source, resolver, &**k),
        FunctionValue::Unknown(u) => write_unknown_function(out, source, resolver, u),
    }
}

pub open spec fn fmt_unknown_signature(source: &Source, resolver: Resolver, level: nat, x: UnknownSignatureValue, acc: Seq<char>) -> Option<Seq<char>>
    decreases x,
{
    match x {
        UnknownSignatureValue::Taken(id) => signature_label(source, resolver, id.0, acc),
        UnknownSignatureValue::Conjured(c) => fmt_conjured_signature_value(source, resolver, level, *c, acc),
    }
}

/// A signature that is taken, or conjured by an unknown function.
pub fn write_unknown_signature(out: &mut IndentingFormatter, source: &Source, resolver: &Resolver, x: &UnknownSignatureValue) -> (ok: bool)
    ensures
        final(out).indentation == old(out).indentation,
        match fmt_unknown_signature(source, *resolver, old(out).indentation as nat, *x, old(out).buf@) {
            Some(t) => ok && final(out).buf@ == t,
            None => !ok,
        },
    decreases x,
{
    match x {
        UnknownSignatureValue::Taken(id) => write_signature_label(out, source, resolver, id.0),
        UnknownSignatureValue::Conjured(c) => write_conjured_signature_value(out, source, resolver, &**c),
    }
}

pub open spec fn fmt_unknown_function(source: &Source, resolver: Resolver, level: nat, x: UnknownFunctionValue, acc: Seq<char>) -> Option<Seq<char>>
    decreases x,
{
    match x {
        UnknownFunctionValue::Taken(id, _) => function_label(source, resolver, id.0, acc),
        UnknownFunctionValue::Conjured(c) => fmt_conjured_function_value(source, resolver, level, *c, acc),
    }
}

/// A function that is taken, or conjured by an unknown function.
pub fn write_unknown_function(out: &mut IndentingFormatter, source: &Source, resolver: &Resolver, x: &UnknownFunctionValue) -> (ok: bool)
    ensures
        final(out).indentation == old(out).indentation,
        match fmt_unknown_function(source, *resolver, old(out).indentation as nat, *x, old(out).buf@) {
            Some(t) => ok && final(out).buf@ == t,
            None => !ok,
        },
    decreases x,
{
    match x {
        UnknownFunctionValue::Taken(id, _) => write_function_label(out, source, resolver, id.0),
        UnknownFunctionValue::Conjured(c) => write_conjured_function_value(out, source, resolver, &**c),
    }
}

/// What a lambda depends on, on one line: the signatures, then the
/// functions but the first; where it depends on no signature, the functions.
pub open spec fn fmt_dependencies(source: &Source, resolver: Resolver, level: nat, x: LambdaDependencies, acc: Seq<char>) -> Option<Seq<char>>
    decreases x,
{
    match x.signatures {
        Items::Cons(first, rest) => match signature_label(source, resolver, *first, acc) {
            None => None,
            Some(acc) => match fmt_spaced_signatures(source, resolver, level, *rest, acc) {
                None => None,
                Some(acc) => fmt_spaced_functions(source, resolver, level, tail(x.functions), acc),
            },
        },
        Items::Nil => match x.functions {
            Items::Cons(first, rest) => match function_label(source, resolver, first.0, acc) {
                None => None,
                Some(acc) => fmt_spaced_functions(source, resolver, level, *rest, acc),
            },
            Items::Nil => Some(acc),
        },
    }
}

pub fn write_dependencies(out: &mut IndentingFormatter, source: &Source, resolver: &Resolver, x: &LambdaDependencies) -> (ok: bool)
    ensures
        final(out).indentation == old(out).indentation,
        match fmt_dependencies(source, *resolver, old(out).indentation as nat, *x, old(out).buf@) {
            Some(t) => ok && final(out).buf@ == t,
            None => !ok,
        },
    decreases x,
{
    match &x.signatures {
        Items::Cons(first, rest) => {
            if !write_signature_label(out, source, resolver, **first) {
                return false;
            }
            if !write_spaced_signatures(out, source, resolver, &**rest) {
                return false;
            }
            write_spaced_functions(out, source, resolver, &tail_of(&x.functions))
        },
        Items::Nil => match &x.functions {
            Items::Cons(first, rest) => {
                if !write_function_label(out, source, resolver, first.0) {
                    return false;
                }
                write_spaced_functions(out, source, resolver, &**rest)
            },
            Items::Nil => true,
        },
    }
}

/// A list without its first element.
pub fn tail_of<T>(items: &Items<T>) -> (r: Items<T>)
    ensures
        r == tail(*items),
{
    match items {
        Items::Nil => Items::Nil,
        Items::Cons(_, rest) => (**rest).copy(),
    }
}

/// A line of the trace: the name that was bound, `:=`, its lambda, and an
/// empty line.
pub open spec fn fmt_trace_entry(source: &Source, resolver: Resolver, level: nat, x: TraceEntry, acc: Seq<char>) -> Option<Seq<char>> {
    match x {
        TraceEntry::Signature(name, lambda) => match fmt_signature_lambda(
            source,
            resolver,
            level,
            lambda,
            acc + span_name(source, name.with_parens) + " := "@,
        ) {
            None => None,
            Some(acc) => Some(acc + "\n\n"@),
        },
        TraceEntry::Function(name, lambda) => match fmt_function_lambda(
            source,
            resolver,
            level,
            lambda,
            acc + span_name(source, name) + " := "@,
        ) {
            None => None,
            Some(acc) => Some(acc + "\n\n"@),
        },
    }
}

pub fn write_trace_entry(out: &mut IndentingFormatter, source: &Source, resolver: &Resolver, x: &TraceEntry) -> (ok: bool)
    ensures
        final(out).indentation == old(out).indentation,
        match fmt_trace_entry(source, *resolver, old(out).indentation as nat, *x, old(out).buf@) {
            Some(t) => ok && final(out).buf@ == t,
            None => !ok,
        },
{
    match x {
        TraceEntry::Signature(name, lambda) => {
            out.write_chars(&name_text(source, name.with_parens));
            out.write_str(" := ");
            if !write_signature_lambda(out, source, resolver, lambda) {
                return false;
            }
        },
        TraceEntry::Function(name, lambda) => {
            out.write_chars(&name_text(source, *name));
            out.write_str(" := ");
            if !write_function_lambda(out, source, resolver, lambda) {
                return false;
            }
        },
    }
    out.write_str("\n\n");
    true
}

} // verus!
