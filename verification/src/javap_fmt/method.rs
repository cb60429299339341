//! The `javap -v` listing of a method.
//!
//! The header of a method shows its return and parameter types as Java source writes
//! them, from its generic signature where it has one and from its descriptor otherwise.
//! Parsing those texts into types is not done here: [`MethodInfo::javap_type_source`]
//! says which text to parse, and [`MethodTypeText`] holds what the parse gives.

use crate::attribute::kind::str_eq;
use crate::attribute::method::{MethodAttribute, SpecMethodAttribute};
use crate::attribute::shared::{SharedAttribute, SpecSharedAttribute};
use crate::constant_pool::pool::{spec_get_class_name, spec_get_utf8};
use crate::constant_pool::{ConstantPool, SpecConstantEntry};
use crate::error::ClassFormatErr;
use crate::flags::ClassFlags;
use crate::javap_fmt::attribute::{spec_method_attribute_lines, spec_method_attribute_listable};
use crate::javap_fmt::constant_pool::opt_views;
use crate::javap_fmt::flags::{spec_method_flag_list, spec_method_prefix};
use crate::javap_fmt::lines::{
    JavapLine, SpecListing, SpecText, appended, emit, lemma_each_all, lemma_each_err, lemma_each_step,
    lemma_join_each_step, lemma_try_join_each_err, lemma_try_join_each_step, spec_cat, spec_each, spec_join_each,
    spec_lines, spec_try_join_each, text_is,
};
use crate::javap_fmt::{fmt_class_name, spec_fmt_class_name, word};
use crate::member::method::{MethodInfo, SpecMethodInfo};
use crate::read::views;
use crate::text::{push_hex4, spec_hex4};
use vstd::prelude::*;

verus! {

/// The types of a method as Java source writes them, as a parser of descriptors and
/// generic signatures gives them.
#[derive(Debug, Clone)]
pub struct MethodTypeText {
    /// What stands before the method's name: its return type, and for a generic
    /// signature, what the signature shows before the name.
    pub ret: String,
    /// The types of the parameters.
    pub params: Vec<String>,
    /// The element type of the last parameter, where that parameter is an array.
    pub last_array_elem: Option<String>,
    /// The `throws` clause of a generic signature that names thrown types.
    pub signature_throws: Option<String>,
}

/// Mathematical counterpart of [`MethodTypeText`].
pub struct SpecMethodTypeText {
    pub ret: Seq<char>,
    pub params: Seq<Seq<char>>,
    pub last_array_elem: Option<Seq<char>>,
    pub signature_throws: Option<Seq<char>>,
}

/// The views of a list of strings.
pub open spec fn string_views(v: Seq<String>) -> Seq<Seq<char>> {
    v.map_values(|s: String| s@)
}

impl View for MethodTypeText {
    type V = SpecMethodTypeText;

    open spec fn view(&self) -> SpecMethodTypeText {
        SpecMethodTypeText {
            ret: self.ret@,
            params: string_views(self.params@),
            last_array_elem: match self.last_array_elem {
                Some(s) => Some(s@),
                None => None,
            },
            signature_throws: match self.signature_throws {
                Some(s) => Some(s@),
                None => None,
            },
        }
    }
}

/// The index of the first `Signature` attribute among `attrs`, if there is one.
pub open spec fn spec_first_method_signature(attrs: Seq<SpecMethodAttribute>) -> Option<u16>
    decreases attrs.len(),
{
    if attrs.len() == 0 {
        None
    } else {
        match attrs[0] {
            SpecMethodAttribute::Shared(SpecSharedAttribute::Signature(i)) => Some(i),
            _ => spec_first_method_signature(attrs.drop_first()),
        }
    }
}

/// The classes of the first `Exceptions` attribute among `attrs`, if there is one.
pub open spec fn spec_first_exceptions(attrs: Seq<SpecMethodAttribute>) -> Option<Seq<u16>>
    decreases attrs.len(),
{
    if attrs.len() == 0 {
        None
    } else {
        match attrs[0] {
            SpecMethodAttribute::Exceptions(e) => Some(e),
            _ => spec_first_exceptions(attrs.drop_first()),
        }
    }
}

/// Whether `attrs` holds a `Code` attribute.
pub open spec fn spec_has_code(attrs: Seq<SpecMethodAttribute>) -> bool {
    exists|k: int| 0 <= k < attrs.len() && (#[trigger] attrs[k]) is Code
}

/// The text whose types javap shows for a method: its generic signature where it has a
/// `Signature` attribute, `Ok(None)` for its descriptor otherwise.
pub open spec fn spec_method_type_source(cp: Seq<SpecConstantEntry>, m: SpecMethodInfo) -> Result<
    Option<Seq<char>>,
    crate::error::SpecClassFormatErr,
> {
    match spec_first_method_signature(m.attributes) {
        Some(i) => match spec_get_utf8(cp, i) {
            Err(e) => Err(e),
            Ok(s) => Ok(Some(s)),
        },
        None => Ok(None),
    }
}

/// The name and return type of a method's header: the class's name for a constructor,
/// `{}` for a static initializer, the return type and the name otherwise. The name is
/// taken through [`spec_fmt_class_name`] first.
pub open spec fn spec_name_and_ret(cp: Seq<SpecConstantEntry>, m: SpecMethodInfo, this: u16, t: SpecMethodTypeText) -> SpecText {
    match spec_get_utf8(cp, m.name_index) {
        Err(e) => Err(e),
        Ok(n) => {
            let name = spec_fmt_class_name(n);
            if name == "<init>"@ {
                match spec_get_class_name(cp, this) {
                    Err(e) => Err(e),
                    Ok(c) => Ok(spec_fmt_class_name(c)),
                }
            } else if name == "<clinit>"@ {
                Ok("{}"@)
            } else {
                Ok(t.ret + " "@ + name)
            }
        },
    }
}

/// The shown type of parameter `i` of `n`: the element type and `...` for a last array
/// parameter of a method that takes variable arguments.
pub open spec fn spec_param_shown(t: SpecMethodTypeText, varargs: bool, i: int) -> Seq<char> {
    if i == t.params.len() - 1 && varargs && t.last_array_elem is Some {
        t.last_array_elem->Some_0 + "..."@
    } else {
        t.params[i]
    }
}

/// A text as itself.
pub open spec fn same_text() -> spec_fn(Seq<char>) -> Seq<char> {
    |s: Seq<char>| s
}

/// The parameter list of a method's header, in parentheses.
pub open spec fn spec_params_text(t: SpecMethodTypeText, varargs: bool) -> Seq<char> {
    "("@ + spec_join_each(
        Seq::new(t.params.len(), |i: int| spec_param_shown(t, varargs, i)),
        same_text(),
        ", "@,
    ) + ")"@
}

/// A thrown class's name as the header shows it.
pub open spec fn thrown_name_fn(cp: Seq<SpecConstantEntry>) -> spec_fn(u16) -> SpecText {
    |i: u16|
        match spec_get_class_name(cp, i) {
            Err(e) => Err(e),
            Ok(c) => Ok(spec_fmt_class_name(c)),
        }
}

/// The `throws` clause of a method's header: the signature's where it names thrown
/// types, else the classes of its first `Exceptions` attribute, else nothing.
pub open spec fn spec_throws_text(cp: Seq<SpecConstantEntry>, m: SpecMethodInfo, t: SpecMethodTypeText) -> SpecText {
    match t.signature_throws {
        Some(s) => Ok(s),
        None => match spec_first_exceptions(m.attributes) {
            None => Ok(seq![]),
            Some(exc) => match spec_try_join_each(exc, thrown_name_fn(cp), ", "@) {
                Err(e) => Err(e),
                Ok(j) => Ok(" throws "@ + j),
            },
        },
    }
}

/// Whether javap shows a method as `default`: a method of an interface that is neither
/// abstract, static nor private and has code.
pub open spec fn spec_is_default(class_flags: u16, m: SpecMethodInfo) -> bool {
    &&& crate::flags::has_flag(class_flags, 0x0200)
    &&& !crate::flags::has_flag(m.access_flags, 0x0400)
    &&& !crate::flags::has_flag(m.access_flags, 0x0008)
    &&& !crate::flags::has_flag(m.access_flags, 0x0002)
    &&& spec_has_code(m.attributes)
}

/// The lines of a method's attribute, as a function of the attribute.
pub open spec fn method_attribute_fn(
    cp: Seq<SpecConstantEntry>,
    ft: Seq<Option<Seq<char>>>,
    param_count: nat,
    this: u16,
    is_static: bool,
    d: usize,
) -> spec_fn(int, SpecMethodAttribute) -> SpecListing {
    |k: int, a: SpecMethodAttribute| spec_method_attribute_lines(cp, ft, a, param_count, this, is_static, d)
}

/// The lines of a method at depth `d`: its header, then one level deeper its descriptor,
/// its flags and its attributes. `t` holds its types as Java source writes them and
/// `param_count` the number of parameters of its descriptor.
pub open spec fn spec_method_lines(
    cp: Seq<SpecConstantEntry>,
    ft: Seq<Option<Seq<char>>>,
    m: SpecMethodInfo,
    this: u16,
    class_flags: u16,
    t: SpecMethodTypeText,
    param_count: nat,
    d: usize,
) -> SpecListing {
    let d1 = (d + 1) as usize;
    match spec_get_utf8(cp, m.descriptor_index) {
        Err(e) => Err(e),
        Ok(desc) => match spec_name_and_ret(cp, m, this, t) {
            Err(e) => Err(e),
            Ok(nr) => match (if spec_get_utf8(cp, m.name_index)->Ok_0 != "<clinit>"@ {
                match spec_throws_text(cp, m, t) {
                    Err(e) => Err(e),
                    Ok(th) => Ok(spec_params_text(t, crate::flags::has_flag(m.access_flags, 0x0080)) + th),
                }
            } else {
                Ok(seq![])
            }) {
                Err(e) => Err(e),
                Ok(tail) => spec_cat(
                    Ok(
                        seq![
                            (
                                d,
                                spec_method_prefix(m.access_flags) + word(spec_is_default(class_flags, m), "default "@)
                                    + nr + tail + ";"@,
                            ),
                            (d1, "descriptor: "@ + desc),
                            (
                                d1,
                                "flags: (0x"@ + spec_hex4(m.access_flags, false) + ") "@ + spec_method_flag_list(
                                    m.access_flags,
                                ),
                            ),
                        ],
                    ),
                    spec_each(
                        m.attributes,
                        method_attribute_fn(cp, ft, param_count, this, crate::flags::has_flag(m.access_flags, 0x0008), d1),
                    ),
                ),
            },
        },
    }
}

/// Whether javap can list every attribute of a method.
pub open spec fn spec_method_listable(cp: Seq<SpecConstantEntry>, ft: Seq<Option<Seq<char>>>, m: SpecMethodInfo) -> bool {
    forall|k: int| 0 <= k < m.attributes.len() ==> spec_method_attribute_listable(cp, ft, #[trigger] m.attributes[k])
}

/// Appends the lines of the attributes of a method, each at depth `d`.
fn method_attribute_lines(
    cp: &ConstantPool,
    ft: &Vec<Option<String>>,
    attrs: &Vec<MethodAttribute>,
    param_count: usize,
    this: &u16,
    is_static: bool,
    d: usize,
    out: &mut Vec<JavapLine>,
) -> (r: Result<(), ClassFormatErr>)
    requires
        d + 4 <= usize::MAX,
        param_count < usize::MAX,
        forall|k: int| 0 <= k < attrs@.len() ==> spec_method_attribute_listable(cp@, opt_views(ft@), #[trigger] views(attrs@)[k]),
    ensures
        appended(
            r,
            old(out)@,
            final(out)@,
            spec_each(views(attrs@), method_attribute_fn(cp@, opt_views(ft@), param_count as nat, *this, is_static, d)),
        ),
{
    let ghost f = method_attribute_fn(cp@, opt_views(ft@), param_count as nat, *this, is_static, d);
    let ghost vs = views(attrs@);
    let ghost start = spec_lines(out@);
    let ghost mut ls: Seq<(usize, Seq<char>)> = seq![];
    let mut i: usize = 0;
    while i < attrs.len()
        invariant
            i <= attrs@.len(),
            d + 4 <= usize::MAX,
            param_count < usize::MAX,
            vs == views(attrs@),
            f == method_attribute_fn(cp@, opt_views(ft@), param_count as nat, *this, is_static, d),
            forall|k: int| 0 <= k < attrs@.len() ==> spec_method_attribute_listable(cp@, opt_views(ft@), #[trigger] views(attrs@)[k]),
            spec_each(vs.take(i as int), f) == SpecListing::Ok(ls),
            spec_lines(out@) == start + ls,
            start == spec_lines(old(out)@),
        decreases attrs@.len() - i,
    {
        proof {
            lemma_each_step(vs, f, i as int);
        }
        assert(vs[i as int] == attrs@[i as int]@);
        match attrs[i].javap_fmt(cp, ft, param_count, this, is_static, d, out) {
            Err(x) => {
                proof {
                    lemma_each_err(vs, f, i + 1);
                }
                return Err(x);
            },
            Ok(()) => {
                proof {
                    ls = ls + spec_method_attribute_lines(cp@, opt_views(ft@), vs[i as int], param_count as nat, *this, is_static, d)->Ok_0;
                    assert(spec_lines(out@) =~= start + ls);
                }
            },
        }
        i = i + 1;
    }
    proof {
        lemma_each_all(vs, f);
    }
    Ok(())
}

/// Whether `attrs` holds a `Code` attribute.
fn has_code(attrs: &Vec<MethodAttribute>) -> (b: bool)
    ensures
        b == spec_has_code(views(attrs@)),
{
    let ghost vs = views(attrs@);
    let mut i: usize = 0;
    while i < attrs.len()
        invariant
            i <= attrs@.len(),
            vs == views(attrs@),
            forall|k: int| 0 <= k < i ==> !(vs[k] is Code),
        decreases attrs@.len() - i,
    {
        assert(vs[i as int] == attrs@[i as int]@);
        if let MethodAttribute::Code(_) = &attrs[i] {
            return true;
        }
        i = i + 1;
    }
    false
}

impl MethodInfo {
    /// The text whose types javap shows for this method: its generic signature where it
    /// has a `Signature` attribute, `None` for its descriptor otherwise.
    pub fn javap_type_source<'a>(&self, cp: &'a ConstantPool) -> (r: Result<Option<&'a str>, ClassFormatErr>)
        ensures
            match spec_method_type_source(cp@, self@) {
                Ok(None) => r == Ok::<Option<&str>, ClassFormatErr>(None),
                Ok(Some(s)) => r matches Ok(Some(x)) && x@ == s,
                Err(e) => r matches Err(x) && x@ == e,
            },
    {
        let ghost attrs = self@.attributes;
        assert(attrs.skip(0) =~= attrs);
        let mut i: usize = 0;
        while i < self.attributes.len()
            invariant
                i <= self.attributes@.len(),
                attrs == views(self.attributes@),
                spec_first_method_signature(attrs) == spec_first_method_signature(attrs.skip(i as int)),
            decreases self.attributes@.len() - i,
        {
            assert(attrs.skip(i as int)[0] == self.attributes@[i as int]@);
            assert(attrs.skip(i as int).drop_first() =~= attrs.skip(i + 1));
            if let MethodAttribute::Shared(SharedAttribute::Signature(sig_index)) = &self.attributes[i] {
                let s = cp.get_utf8(sig_index)?;
                return Ok(Some(s));
            }
            i = i + 1;
        }
        assert(attrs.skip(i as int) =~= Seq::<SpecMethodAttribute>::empty());
        Ok(None)
    }

    /// The flags line of this method: its raw flags in hexadecimal and their names.
    pub fn javap_fmt_flags(&self) -> (r: String)
        ensures
            r@ == "flags: (0x"@ + spec_hex4(self@.access_flags, false) + ") "@ + spec_method_flag_list(self@.access_flags),
    {
        let mut s = "flags: (0x".to_string();
        push_hex4(&mut s, *self.access_flags.get_raw(), false);
        s.append(") ");
        let list = self.access_flags.fmt_class_javap_like_list();
        s.append(list.as_str());
        s
    }

    /// The `throws` clause of this method's header.
    pub fn javap_fmt_throws(&self, cp: &ConstantPool, types: &MethodTypeText) -> (r: Result<String, ClassFormatErr>)
        ensures
            text_is(r, spec_throws_text(cp@, self@, types@)),
    {
        if let Some(s) = &types.signature_throws {
            return Ok(s.as_str().to_string());
        }
        let ghost attrs = self@.attributes;
        assert(attrs.skip(0) =~= attrs);
        let mut i: usize = 0;
        while i < self.attributes.len()
            invariant
                i <= self.attributes@.len(),
                attrs == views(self.attributes@),
                types@.signature_throws is None,
                spec_first_exceptions(attrs) == spec_first_exceptions(attrs.skip(i as int)),
            decreases self.attributes@.len() - i,
        {
            assert(attrs.skip(i as int)[0] == self.attributes@[i as int]@);
            assert(attrs.skip(i as int).drop_first() =~= attrs.skip(i + 1));
            if let MethodAttribute::Exceptions(exc) = &self.attributes[i] {
                let ghost f = thrown_name_fn(cp@);
                assert(spec_first_exceptions(attrs) == Some(exc@));
                let mut joined = String::new();
                let mut j: usize = 0;
                while j < exc.len()
                    invariant
                        j <= exc@.len(),
                        f == thrown_name_fn(cp@),
                        spec_first_exceptions(attrs) == Some(exc@),
                        attrs == self@.attributes,
                        types@.signature_throws is None,
                        spec_try_join_each(exc@.take(j as int), f, ", "@) == SpecText::Ok(joined@),
                    decreases exc@.len() - j,
                {
                    proof {
                        lemma_try_join_each_step(exc@, f, ", "@, j as int);
                    }
                    match cp.get_class_name(&exc[j]) {
                        Err(e) => {
                            proof {
                                lemma_try_join_each_err(exc@, f, ", "@, j + 1);
                            }
                            return Err(e);
                        },
                        Ok(c) => {
                            if j > 0 {
                                joined.append(", ");
                            }
                            let n = fmt_class_name(c);
                            joined.append(n.as_str());
                        },
                    }
                    j = j + 1;
                }
                proof {
                    assert(exc@.take(exc@.len() as int) =~= exc@);
                }
                let mut s = " throws ".to_string();
                s.append(joined.as_str());
                return Ok(s);
            }
            i = i + 1;
        }
        assert(attrs.skip(i as int) =~= Seq::<SpecMethodAttribute>::empty());
        Ok(String::new())
    }

    /// The name and return type of this method's header; `this` is the class being
    /// shown.
    pub fn javap_fmt_name_and_ret_type(&self, cp: &ConstantPool, this: &u16, types: &MethodTypeText) -> (r: Result<
        String,
        ClassFormatErr,
    >)
        ensures
            text_is(r, spec_name_and_ret(cp@, self@, *this, types@)),
    {
        let n = cp.get_utf8(&self.name_index)?;
        let name = fmt_class_name(n);
        if str_eq(name.as_str(), "<init>") {
            let c = cp.get_class_name(this)?;
            Ok(fmt_class_name(c))
        } else if str_eq(name.as_str(), "<clinit>") {
            Ok("{}".to_string())
        } else {
            let mut s = types.ret.as_str().to_string();
            s.append(" ");
            s.append(name.as_str());
            Ok(s)
        }
    }

    /// The parameter list of this method's header.
    pub fn javap_fmt_params(&self, types: &MethodTypeText) -> (r: String)
        ensures
            r@ == spec_params_text(types@, crate::flags::has_flag(self@.access_flags, 0x0080)),
    {
        let varargs = self.access_flags.is_varargs();
        let ghost t = types@;
        let ghost items = Seq::new(t.params.len(), |i: int| spec_param_shown(t, varargs, i));
        let n = types.params.len();
        let mut joined = String::new();
        let mut i: usize = 0;
        while i < n
            invariant
                i <= n,
                n == t.params.len(),
                t == types@,
                items == Seq::new(t.params.len(), |i: int| spec_param_shown(t, varargs, i)),
                spec_join_each(items.take(i as int), same_text(), ", "@) == joined@,
            decreases n - i,
        {
            proof {
                lemma_join_each_step(items, same_text(), ", "@, i as int);
            }
            if i > 0 {
                joined.append(", ");
            }
            let last = i + 1 == n && varargs;
            match &types.last_array_elem {
                Some(e) if last => {
                    joined.append(e.as_str());
                    joined.append("...");
                },
                _ => {
                    assert(t.params[i as int] == types.params@[i as int]@);
                    joined.append(types.params[i].as_str());
                },
            }
            i = i + 1;
        }
        proof {
            assert(items.take(n as int) =~= items);
        }
        let mut s = "(".to_string();
        s.append(joined.as_str());
        s.append(")");
        s
    }

    /// Appends the lines of this method at depth `depth`: `this` is the class being
    /// shown and `class_flags` its flags, `types` holds this method's types as Java
    /// source writes them and `param_count` the number of parameters of its descriptor.
    #[verifier::spinoff_prover]
    #[verifier::rlimit(40)]
    pub fn javap_fmt(
        &self,
        cp: &ConstantPool,
        ft: &Vec<Option<String>>,
        this: &u16,
        class_flags: &ClassFlags,
        types: &MethodTypeText,
        param_count: usize,
        depth: usize,
        out: &mut Vec<JavapLine>,
    ) -> (r: Result<(), ClassFormatErr>)
        requires
            depth + 5 <= usize::MAX,
            param_count < usize::MAX,
            spec_method_listable(cp@, opt_views(ft@), self@),
        ensures
            appended(
                r,
                old(out)@,
                final(out)@,
                spec_method_lines(cp@, opt_views(ft@), self@, *this, class_flags@, types@, param_count as nat, depth),
            ),
    {
        let ghost before = spec_lines(out@);
        let d1 = depth + 1;
        let desc = cp.get_utf8(&self.descriptor_index)?;
        let is_default = class_flags.is_interface() && !self.access_flags.is_abstract() && !self.access_flags.is_static()
            && !self.access_flags.is_private() && has_code(&self.attributes);
        assert(is_default == spec_is_default(class_flags@, self@));
        let mut head = self.access_flags.javap_fmt_java_like_prefix();
        crate::javap_fmt::add_word(&mut head, is_default, "default ");
        let nr = self.javap_fmt_name_and_ret_type(cp, this, types)?;
        head.append(nr.as_str());
        let raw_name = cp.get_utf8(&self.name_index)?;
        let ghost tail: Seq<char> = seq![];
        if !str_eq(raw_name, "<clinit>") {
            let params = self.javap_fmt_params(types);
            head.append(params.as_str());
            let th = self.javap_fmt_throws(cp, types)?;
            head.append(th.as_str());
            proof {
                tail = params@ + th@;
            }
        }
        head.append(";");
        assert(head@ =~= spec_method_prefix(self@.access_flags) + word(spec_is_default(class_flags@, self@), "default "@) + nr@
            + tail + ";"@);
        emit(out, depth, head);
        let mut d = "descriptor: ".to_string();
        d.append(desc);
        emit(out, d1, d);
        emit(out, d1, self.javap_fmt_flags());
        let r = method_attribute_lines(cp, ft, &self.attributes, param_count, this, self.access_flags.is_static(), d1, out);
        if r.is_err() {
            return r;
        }
        assert(spec_lines(out@) =~= before + spec_method_lines(
            cp@,
            opt_views(ft@),
            self@,
            *this,
            class_flags@,
            types@,
            param_count as nat,
            depth,
        )->Ok_0);
        Ok(())
    }
}

} // verus!
