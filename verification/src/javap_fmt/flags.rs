//! Flag sets as javap and Java source show them.

use crate::flags::{ClassFlags, FieldFlags, InnerClassFlags, MethodFlags, MethodParamFlags, has_flag};
use crate::javap_fmt::{spec_join, spec_selected, flag_items, flag_list, word, add_word};
use vstd::prelude::*;

verus! {

/// The flags of `raw` that javap lists, in its order, as `ACC_` names.
pub open spec fn spec_class_flag_items(raw: u16) -> Seq<(bool, Seq<char>)> {
    seq![
        (has_flag(raw, 0x0001), "ACC_PUBLIC"@),
        (has_flag(raw, 0x0010), "ACC_FINAL"@),
        (has_flag(raw, 0x0020), "ACC_SUPER"@),
        (has_flag(raw, 0x0200), "ACC_INTERFACE"@),
        (has_flag(raw, 0x0400), "ACC_ABSTRACT"@),
        (has_flag(raw, 0x1000), "ACC_SYNTHETIC"@),
        (has_flag(raw, 0x2000), "ACC_ANNOTATION"@),
        (has_flag(raw, 0x4000), "ACC_ENUM"@),
        (has_flag(raw, 0x8000), "ACC_MODULE"@),
    ]
}

/// javap's list of the flags of `raw`, such as `ACC_PUBLIC, ACC_SUPER`.
pub open spec fn spec_class_flag_list(raw: u16) -> Seq<char> {
    spec_join(spec_selected(spec_class_flag_items(raw)), ", "@)
}

/// The flags of `raw` that javap lists, in its order, as `ACC_` names.
pub open spec fn spec_method_flag_items(raw: u16) -> Seq<(bool, Seq<char>)> {
    seq![
        (has_flag(raw, 0x0001), "ACC_PUBLIC"@),
        (has_flag(raw, 0x0002), "ACC_PRIVATE"@),
        (has_flag(raw, 0x0004), "ACC_PROTECTED"@),
        (has_flag(raw, 0x0008), "ACC_STATIC"@),
        (has_flag(raw, 0x0010), "ACC_FINAL"@),
        (has_flag(raw, 0x0020), "ACC_SYNCHRONIZED"@),
        (has_flag(raw, 0x0040), "ACC_BRIDGE"@),
        (has_flag(raw, 0x0080), "ACC_VARARGS"@),
        (has_flag(raw, 0x0100), "ACC_NATIVE"@),
        (has_flag(raw, 0x0400), "ACC_ABSTRACT"@),
        (has_flag(raw, 0x0800), "ACC_STRICT"@),
        (has_flag(raw, 0x1000), "ACC_SYNTHETIC"@),
    ]
}

/// javap's list of the flags of `raw`, such as `ACC_PUBLIC, ACC_SUPER`.
pub open spec fn spec_method_flag_list(raw: u16) -> Seq<char> {
    spec_join(spec_selected(spec_method_flag_items(raw)), ", "@)
}

/// The flags of `raw` that javap lists, in its order, as `ACC_` names.
pub open spec fn spec_field_flag_items(raw: u16) -> Seq<(bool, Seq<char>)> {
    seq![
        (has_flag(raw, 0x0001), "ACC_PUBLIC"@),
        (has_flag(raw, 0x0002), "ACC_PRIVATE"@),
        (has_flag(raw, 0x0004), "ACC_PROTECTED"@),
        (has_flag(raw, 0x0008), "ACC_STATIC"@),
        (has_flag(raw, 0x0010), "ACC_FINAL"@),
        (has_flag(raw, 0x0040), "ACC_VOLATILE"@),
        (has_flag(raw, 0x0080), "ACC_TRANSIENT"@),
        (has_flag(raw, 0x1000), "ACC_SYNTHETIC"@),
        (has_flag(raw, 0x4000), "ACC_ENUM"@),
    ]
}

/// javap's list of the flags of `raw`, such as `ACC_PUBLIC, ACC_SUPER`.
pub open spec fn spec_field_flag_list(raw: u16) -> Seq<char> {
    spec_join(spec_selected(spec_field_flag_items(raw)), ", "@)
}

/// Java-like modifiers of a method, such as `public static final `.
pub open spec fn spec_method_prefix(raw: u16) -> Seq<char> {
    (if has_flag(raw, 0x0001) { "public "@ } else if has_flag(raw, 0x0004) { "protected "@ } else if has_flag(raw, 0x0002) { "private "@ } else { seq![] })
        + word(has_flag(raw, 0x0008), "static "@)
        + word(has_flag(raw, 0x0010), "final "@)
        + word(has_flag(raw, 0x0020), "synchronized "@)
        + word(has_flag(raw, 0x0100), "native "@)
        + word(has_flag(raw, 0x0400), "abstract "@)
        + word(has_flag(raw, 0x0800), "strictfp "@)
}

/// Java-like modifiers of a field, as javap shows them.
pub open spec fn spec_field_prefix(raw: u16) -> Seq<char> {
    (if has_flag(raw, 0x0001) { "public "@ } else if has_flag(raw, 0x0004) { "protected "@ } else if has_flag(raw, 0x0002) { "private "@ } else { seq![] })
        + word(has_flag(raw, 0x0008), "static "@)
        + word(has_flag(raw, 0x0010), "final "@)
        + word(has_flag(raw, 0x0040), "volatile "@)
        + word(has_flag(raw, 0x0080), "transient "@)
}

/// Java-like modifiers of a field, followed by `enum ` for enum constants.
pub open spec fn spec_field_pretty_prefix(raw: u16) -> Seq<char> {
    spec_field_prefix(raw) + word(has_flag(raw, 0x4000), "enum "@)
}

/// Modifiers of a method parameter.
pub open spec fn spec_param_prefix(raw: u16) -> Seq<char> {
    word(has_flag(raw, 0x0010), "final "@)
        + word(has_flag(raw, 0x1000), "synthetic "@)
        + word(has_flag(raw, 0x8000), "mandated "@)
}

/// `raw` marks an interface, an annotation interface or a module.
pub open spec fn class_iface_like(raw: u16) -> bool {
    has_flag(raw, 0x0200) || has_flag(raw, 0x2000) || has_flag(raw, 0x8000)
}

/// Java-like declaration prefix of a class, such as `public abstract class `.
/// With `enum_kind`, enum classes are shown as `enum `.
pub open spec fn spec_class_prefix(raw: u16, enum_kind: bool) -> Seq<char> {
    word(has_flag(raw, 0x0001), "public "@)
        + word(has_flag(raw, 0x0400) && !class_iface_like(raw), "abstract "@)
        + word(has_flag(raw, 0x0010) && !class_iface_like(raw), "final "@)
        + (if has_flag(raw, 0x8000) {
            "module "@
        } else if has_flag(raw, 0x2000) {
            "@interface "@
        } else if has_flag(raw, 0x0200) {
            "interface "@
        } else if enum_kind && has_flag(raw, 0x4000) {
            "enum "@
        } else {
            "class "@
        })
}

/// The modifiers of a nested class that javap shows, in its order: `abstract` and `final`
/// only for classes that are not interfaces or annotation interfaces.
pub open spec fn spec_inner_class_items(raw: u16) -> Seq<(bool, Seq<char>)> {
    seq![
        (has_flag(raw, 0x0001), "public"@),
        (has_flag(raw, 0x0002), "private"@),
        (has_flag(raw, 0x0004), "protected"@),
        (has_flag(raw, 0x0008), "static"@),
        (has_flag(raw, 0x0400) && !(has_flag(raw, 0x0200) || has_flag(raw, 0x2000)), "abstract"@),
        (has_flag(raw, 0x0010) && !(has_flag(raw, 0x0200) || has_flag(raw, 0x2000)), "final"@),
    ]
}

/// The modifiers of a nested class, joined by single spaces.
pub open spec fn spec_inner_class_prefix(raw: u16) -> Seq<char> {
    spec_join(spec_selected(spec_inner_class_items(raw)), " "@)
}

impl ClassFlags {
    fn prefix(&self, enum_kind: bool) -> (r: String)
        ensures
            r@ == spec_class_prefix(self@, enum_kind),
    {
        let mut out = String::new();
        let is_iface_like = self.is_interface() || self.is_annotation() || self.is_module();
        add_word(&mut out, self.is_public(), "public ");
        add_word(&mut out, self.is_abstract() && !is_iface_like, "abstract ");
        add_word(&mut out, self.is_final() && !is_iface_like, "final ");
        if self.is_module() {
            out.append("module ");
        } else if self.is_annotation() {
            out.append("@interface ");
        } else if self.is_interface() {
            out.append("interface ");
        } else if enum_kind && self.is_enum() {
            out.append("enum ");
        } else {
            out.append("class ");
        }
        out
    }

    /// Java-like declaration prefix, such as `public abstract class `.
    pub fn javap_fmt_java_like_prefix(&self) -> (r: String)
        ensures
            r@ == spec_class_prefix(self@, false),
    {
        self.prefix(false)
    }

    /// Java-like declaration prefix that names enums, such as `public final enum `.
    pub fn fmt_pretty_java_like_prefix(&self) -> (r: String)
        ensures
            r@ == spec_class_prefix(self@, true),
    {
        self.prefix(true)
    }

    /// javap's list of the set flags, such as `ACC_PUBLIC, ACC_FINAL`.
    pub fn fmt_class_javap_like_list(&self) -> (r: String)
        ensures
            r@ == spec_class_flag_list(self@),
    {
        let items = vec![
            (self.is_public(), "ACC_PUBLIC"),
            (self.is_final(), "ACC_FINAL"),
            (self.is_super(), "ACC_SUPER"),
            (self.is_interface(), "ACC_INTERFACE"),
            (self.is_abstract(), "ACC_ABSTRACT"),
            (self.is_synthetic(), "ACC_SYNTHETIC"),
            (self.is_annotation(), "ACC_ANNOTATION"),
            (self.is_enum(), "ACC_ENUM"),
            (self.is_module(), "ACC_MODULE"),
        ];
        proof {
            assert(flag_items(items@) =~= spec_class_flag_items(self@));
        }
        flag_list(&items, ", ")
    }
}

impl MethodFlags {
    /// Java-like modifiers, such as `public static final `.
    pub fn javap_fmt_java_like_prefix(&self) -> (r: String)
        ensures
            r@ == spec_method_prefix(self@),
    {
        let mut out = String::new();
        if self.is_public() {
            out.append("public ");
        } else if self.is_protected() {
            out.append("protected ");
        } else if self.is_private() {
            out.append("private ");
        }
        add_word(&mut out, self.is_static(), "static ");
        add_word(&mut out, self.is_final(), "final ");
        add_word(&mut out, self.is_synchronized(), "synchronized ");
        add_word(&mut out, self.is_native(), "native ");
        add_word(&mut out, self.is_abstract(), "abstract ");
        add_word(&mut out, self.is_strict(), "strictfp ");
        out
    }

    /// Same as [`MethodFlags::javap_fmt_java_like_prefix`].
    pub fn fmt_pretty_java_like_prefix(&self) -> (r: String)
        ensures
            r@ == spec_method_prefix(self@),
    {
        self.javap_fmt_java_like_prefix()
    }

    /// javap's list of the set flags, such as `ACC_PUBLIC, ACC_FINAL`.
    pub fn fmt_class_javap_like_list(&self) -> (r: String)
        ensures
            r@ == spec_method_flag_list(self@),
    {
        let items = vec![
            (self.is_public(), "ACC_PUBLIC"),
            (self.is_private(), "ACC_PRIVATE"),
            (self.is_protected(), "ACC_PROTECTED"),
            (self.is_static(), "ACC_STATIC"),
            (self.is_final(), "ACC_FINAL"),
            (self.is_synchronized(), "ACC_SYNCHRONIZED"),
            (self.is_bridge(), "ACC_BRIDGE"),
            (self.is_varargs(), "ACC_VARARGS"),
            (self.is_native(), "ACC_NATIVE"),
            (self.is_abstract(), "ACC_ABSTRACT"),
            (self.is_strict(), "ACC_STRICT"),
            (self.is_synthetic(), "ACC_SYNTHETIC"),
        ];
        proof {
            assert(flag_items(items@) =~= spec_method_flag_items(self@));
        }
        flag_list(&items, ", ")
    }
}

impl FieldFlags {
    /// Java-like modifiers of a field header.
    pub fn fmt_field_javap_java_like_prefix(&self) -> (r: String)
        ensures
            r@ == spec_field_prefix(self@),
    {
        let mut out = String::new();
        if self.is_public() {
            out.append("public ");
        } else if self.is_protected() {
            out.append("protected ");
        } else if self.is_private() {
            out.append("private ");
        }
        add_word(&mut out, self.is_static(), "static ");
        add_word(&mut out, self.is_final(), "final ");
        add_word(&mut out, self.is_volatile(), "volatile ");
        add_word(&mut out, self.is_transient(), "transient ");
        out
    }

    /// Java-like modifiers of a field header, with `enum ` for enum constants.
    pub fn fmt_field_pretty_java_like_prefix(&self) -> (r: String)
        ensures
            r@ == spec_field_pretty_prefix(self@),
    {
        let mut out = self.fmt_field_javap_java_like_prefix();
        add_word(&mut out, self.is_enum(), "enum ");
        out
    }

    /// javap's list of the set flags, such as `ACC_PUBLIC, ACC_FINAL`.
    pub fn fmt_class_javap_like_list(&self) -> (r: String)
        ensures
            r@ == spec_field_flag_list(self@),
    {
        let items = vec![
            (self.is_public(), "ACC_PUBLIC"),
            (self.is_private(), "ACC_PRIVATE"),
            (self.is_protected(), "ACC_PROTECTED"),
            (self.is_static(), "ACC_STATIC"),
            (self.is_final(), "ACC_FINAL"),
            (self.is_volatile(), "ACC_VOLATILE"),
            (self.is_transient(), "ACC_TRANSIENT"),
            (self.is_synthetic(), "ACC_SYNTHETIC"),
            (self.is_enum(), "ACC_ENUM"),
        ];
        proof {
            assert(flag_items(items@) =~= spec_field_flag_items(self@));
        }
        flag_list(&items, ", ")
    }
}

impl MethodParamFlags {
    /// Modifiers of a method parameter, such as `final mandated `.
    pub fn javap_fmt(&self) -> (r: String)
        ensures
            r@ == spec_param_prefix(self@),
    {
        let mut out = String::new();
        add_word(&mut out, self.is_final(), "final ");
        add_word(&mut out, self.is_synthetic(), "synthetic ");
        add_word(&mut out, self.is_mandated(), "mandated ");
        out
    }

    /// Same as [`MethodParamFlags::javap_fmt`].
    pub fn fmt_pretty(&self) -> (r: String)
        ensures
            r@ == spec_param_prefix(self@),
    {
        self.javap_fmt()
    }
}

impl InnerClassFlags {
    /// The modifiers of a nested class joined by spaces, such as `public static final`.
    pub fn javap_java_like_prefix(&self) -> (r: String)
        ensures
            r@ == spec_inner_class_prefix(self@),
    {
        let is_iface_like = self.is_interface() || self.is_annotation();
        let items = vec![
            (self.is_public(), "public"),
            (self.is_private(), "private"),
            (self.is_protected(), "protected"),
            (self.is_static(), "static"),
            (self.is_abstract() && !is_iface_like, "abstract"),
            (self.is_final() && !is_iface_like, "final"),
        ];
        proof {
            assert(flag_items(items@) =~= seq![
                (has_flag(self@, 0x0001), "public"@),
                (has_flag(self@, 0x0002), "private"@),
                (has_flag(self@, 0x0004), "protected"@),
                (has_flag(self@, 0x0008), "static"@),
                (has_flag(self@, 0x0400) && !(has_flag(self@, 0x0200) || has_flag(self@, 0x2000)), "abstract"@),
                (has_flag(self@, 0x0010) && !(has_flag(self@, 0x0200) || has_flag(self@, 0x2000)), "final"@),
            ]);
        }
        flag_list(&items, " ")
    }

    /// Same as [`InnerClassFlags::javap_java_like_prefix`].
    pub fn pretty_java_like_prefix(&self) -> (r: String)
        ensures
            r@ == spec_inner_class_prefix(self@),
    {
        self.javap_java_like_prefix()
    }
}


/// A name is among the selected names exactly when some set item carries it.
pub proof fn lemma_selected_contains(items: Seq<(bool, Seq<char>)>, n: Seq<char>)
    ensures
        spec_selected(items).contains(n) <==> exists|k: int| 0 <= k < items.len() && (#[trigger] items[k]).0 && items[k].1 == n,
    decreases items.len(),
{
    if items.len() > 0 {
        let dl = items.drop_last();
        lemma_selected_contains(dl, n);
        let prev = spec_selected(dl);
        let last = items.last();
        if spec_selected(items).contains(n) {
            let j = choose|j: int| 0 <= j < spec_selected(items).len() && spec_selected(items)[j] == n;
            if last.0 && j == prev.len() {
                assert(items[items.len() - 1] == last);
            } else {
                assert(prev[j] == n);
                let k = choose|k: int| 0 <= k < dl.len() && (#[trigger] dl[k]).0 && dl[k].1 == n;
                assert(items[k] == dl[k]);
            }
        }
        if exists|k: int| 0 <= k < items.len() && (#[trigger] items[k]).0 && items[k].1 == n {
            let k = choose|k: int| 0 <= k < items.len() && (#[trigger] items[k]).0 && items[k].1 == n;
            if k == items.len() - 1 {
                assert(spec_selected(items)[prev.len() as int] == n);
            } else {
                assert(dl[k] == items[k]);
                let j = choose|j: int| 0 <= j < prev.len() && prev[j] == n;
                assert(spec_selected(items)[j] == n);
            }
        }
    }
}

/// Every flag that javap names for a class is listed exactly when its bit is set in the
/// raw flag word: the list is the selected names joined by `, `, and each `ACC_` name is
/// among them exactly when `raw` has its mask.
#[verifier::spinoff_prover]
#[verifier::rlimit(100)]
pub proof fn lemma_class_flag_list_names(raw: u16)
    ensures
        spec_class_flag_list(raw) == spec_join(spec_selected(spec_class_flag_items(raw)), ", "@),
        spec_selected(spec_class_flag_items(raw)).contains("ACC_PUBLIC"@) <==> raw & 0x0001 != 0,
        spec_selected(spec_class_flag_items(raw)).contains("ACC_FINAL"@) <==> raw & 0x0010 != 0,
        spec_selected(spec_class_flag_items(raw)).contains("ACC_SUPER"@) <==> raw & 0x0020 != 0,
        spec_selected(spec_class_flag_items(raw)).contains("ACC_INTERFACE"@) <==> raw & 0x0200 != 0,
        spec_selected(spec_class_flag_items(raw)).contains("ACC_ABSTRACT"@) <==> raw & 0x0400 != 0,
        spec_selected(spec_class_flag_items(raw)).contains("ACC_SYNTHETIC"@) <==> raw & 0x1000 != 0,
        spec_selected(spec_class_flag_items(raw)).contains("ACC_ANNOTATION"@) <==> raw & 0x2000 != 0,
        spec_selected(spec_class_flag_items(raw)).contains("ACC_ENUM"@) <==> raw & 0x4000 != 0,
        spec_selected(spec_class_flag_items(raw)).contains("ACC_MODULE"@) <==> raw & 0x8000 != 0,
{
    reveal_strlit("ACC_PUBLIC");
    reveal_strlit("ACC_FINAL");
    reveal_strlit("ACC_SUPER");
    reveal_strlit("ACC_INTERFACE");
    reveal_strlit("ACC_ABSTRACT");
    reveal_strlit("ACC_SYNTHETIC");
    reveal_strlit("ACC_ANNOTATION");
    reveal_strlit("ACC_ENUM");
    reveal_strlit("ACC_MODULE");
    let items = spec_class_flag_items(raw);
    assert(items[0].1 == "ACC_PUBLIC"@);
    assert(items[1].1 == "ACC_FINAL"@);
    assert(items[2].1 == "ACC_SUPER"@);
    assert(items[3].1 == "ACC_INTERFACE"@);
    assert(items[4].1 == "ACC_ABSTRACT"@);
    assert(items[5].1 == "ACC_SYNTHETIC"@);
    assert(items[6].1 == "ACC_ANNOTATION"@);
    assert(items[7].1 == "ACC_ENUM"@);
    assert(items[8].1 == "ACC_MODULE"@);
    lemma_selected_contains(items, "ACC_PUBLIC"@);
    if spec_selected(items).contains("ACC_PUBLIC"@) {
        let k = choose|k: int| 0 <= k < items.len() && (#[trigger] items[k]).0 && items[k].1 == "ACC_PUBLIC"@;
        if k == 0 {} else if k == 1 {} else if k == 2 {} else if k == 3 {} else if k == 4 {} else if k == 5 {} else if k == 6 {} else if k == 7 {} else if k == 8 { assert("ACC_MODULE"@[4] != "ACC_PUBLIC"@[4]); }
        assert(k == 0);
    }
    lemma_selected_contains(items, "ACC_FINAL"@);
    if spec_selected(items).contains("ACC_FINAL"@) {
        let k = choose|k: int| 0 <= k < items.len() && (#[trigger] items[k]).0 && items[k].1 == "ACC_FINAL"@;
        if k == 0 {} else if k == 1 {} else if k == 2 { assert("ACC_SUPER"@[4] != "ACC_FINAL"@[4]); } else if k == 3 {} else if k == 4 {} else if k == 5 {} else if k == 6 {} else if k == 7 {} else if k == 8 {}
        assert(k == 1);
    }
    lemma_selected_contains(items, "ACC_SUPER"@);
    if spec_selected(items).contains("ACC_SUPER"@) {
        let k = choose|k: int| 0 <= k < items.len() && (#[trigger] items[k]).0 && items[k].1 == "ACC_SUPER"@;
        if k == 0 {} else if k == 1 { assert("ACC_FINAL"@[4] != "ACC_SUPER"@[4]); } else if k == 2 {} else if k == 3 {} else if k == 4 {} else if k == 5 {} else if k == 6 {} else if k == 7 {} else if k == 8 {}
        assert(k == 2);
    }
    lemma_selected_contains(items, "ACC_INTERFACE"@);
    if spec_selected(items).contains("ACC_INTERFACE"@) {
        let k = choose|k: int| 0 <= k < items.len() && (#[trigger] items[k]).0 && items[k].1 == "ACC_INTERFACE"@;
        if k == 0 {} else if k == 1 {} else if k == 2 {} else if k == 3 {} else if k == 4 {} else if k == 5 { assert("ACC_SYNTHETIC"@[4] != "ACC_INTERFACE"@[4]); } else if k == 6 {} else if k == 7 {} else if k == 8 {}
        assert(k == 3);
    }
    lemma_selected_contains(items, "ACC_ABSTRACT"@);
    if spec_selected(items).contains("ACC_ABSTRACT"@) {
        let k = choose|k: int| 0 <= k < items.len() && (#[trigger] items[k]).0 && items[k].1 == "ACC_ABSTRACT"@;
        if k == 0 {} else if k == 1 {} else if k == 2 {} else if k == 3 {} else if k == 4 {} else if k == 5 {} else if k == 6 {} else if k == 7 {} else if k == 8 {}
        assert(k == 4);
    }
    lemma_selected_contains(items, "ACC_SYNTHETIC"@);
    if spec_selected(items).contains("ACC_SYNTHETIC"@) {
        let k = choose|k: int| 0 <= k < items.len() && (#[trigger] items[k]).0 && items[k].1 == "ACC_SYNTHETIC"@;
        if k == 0 {} else if k == 1 {} else if k == 2 {} else if k == 3 { assert("ACC_INTERFACE"@[4] != "ACC_SYNTHETIC"@[4]); } else if k == 4 {} else if k == 5 {} else if k == 6 {} else if k == 7 {} else if k == 8 {}
        assert(k == 5);
    }
    lemma_selected_contains(items, "ACC_ANNOTATION"@);
    if spec_selected(items).contains("ACC_ANNOTATION"@) {
        let k = choose|k: int| 0 <= k < items.len() && (#[trigger] items[k]).0 && items[k].1 == "ACC_ANNOTATION"@;
        if k == 0 {} else if k == 1 {} else if k == 2 {} else if k == 3 {} else if k == 4 {} else if k == 5 {} else if k == 6 {} else if k == 7 {} else if k == 8 {}
        assert(k == 6);
    }
    lemma_selected_contains(items, "ACC_ENUM"@);
    if spec_selected(items).contains("ACC_ENUM"@) {
        let k = choose|k: int| 0 <= k < items.len() && (#[trigger] items[k]).0 && items[k].1 == "ACC_ENUM"@;
        if k == 0 {} else if k == 1 {} else if k == 2 {} else if k == 3 {} else if k == 4 {} else if k == 5 {} else if k == 6 {} else if k == 7 {} else if k == 8 {}
        assert(k == 7);
    }
    lemma_selected_contains(items, "ACC_MODULE"@);
    if spec_selected(items).contains("ACC_MODULE"@) {
        let k = choose|k: int| 0 <= k < items.len() && (#[trigger] items[k]).0 && items[k].1 == "ACC_MODULE"@;
        if k == 0 { assert("ACC_PUBLIC"@[4] != "ACC_MODULE"@[4]); } else if k == 1 {} else if k == 2 {} else if k == 3 {} else if k == 4 {} else if k == 5 {} else if k == 6 {} else if k == 7 {} else if k == 8 {}
        assert(k == 8);
    }
}

/// Every flag that javap names for a method is listed exactly when its bit is set in the
/// raw flag word: the list is the selected names joined by `, `, and each `ACC_` name is
/// among them exactly when `raw` has its mask.
#[verifier::spinoff_prover]
#[verifier::rlimit(100)]
pub proof fn lemma_method_flag_list_names(raw: u16)
    ensures
        spec_method_flag_list(raw) == spec_join(spec_selected(spec_method_flag_items(raw)), ", "@),
        spec_selected(spec_method_flag_items(raw)).contains("ACC_PUBLIC"@) <==> raw & 0x0001 != 0,
        spec_selected(spec_method_flag_items(raw)).contains("ACC_PRIVATE"@) <==> raw & 0x0002 != 0,
        spec_selected(spec_method_flag_items(raw)).contains("ACC_PROTECTED"@) <==> raw & 0x0004 != 0,
        spec_selected(spec_method_flag_items(raw)).contains("ACC_STATIC"@) <==> raw & 0x0008 != 0,
        spec_selected(spec_method_flag_items(raw)).contains("ACC_FINAL"@) <==> raw & 0x0010 != 0,
        spec_selected(spec_method_flag_items(raw)).contains("ACC_SYNCHRONIZED"@) <==> raw & 0x0020 != 0,
        spec_selected(spec_method_flag_items(raw)).contains("ACC_BRIDGE"@) <==> raw & 0x0040 != 0,
        spec_selected(spec_method_flag_items(raw)).contains("ACC_VARARGS"@) <==> raw & 0x0080 != 0,
        spec_selected(spec_method_flag_items(raw)).contains("ACC_NATIVE"@) <==> raw & 0x0100 != 0,
        spec_selected(spec_method_flag_items(raw)).contains("ACC_ABSTRACT"@) <==> raw & 0x0400 != 0,
        spec_selected(spec_method_flag_items(raw)).contains("ACC_STRICT"@) <==> raw & 0x0800 != 0,
        spec_selected(spec_method_flag_items(raw)).contains("ACC_SYNTHETIC"@) <==> raw & 0x1000 != 0,
{
    reveal_strlit("ACC_PUBLIC");
    reveal_strlit("ACC_PRIVATE");
    reveal_strlit("ACC_PROTECTED");
    reveal_strlit("ACC_STATIC");
    reveal_strlit("ACC_FINAL");
    reveal_strlit("ACC_SYNCHRONIZED");
    reveal_strlit("ACC_BRIDGE");
    reveal_strlit("ACC_VARARGS");
    reveal_strlit("ACC_NATIVE");
    reveal_strlit("ACC_ABSTRACT");
    reveal_strlit("ACC_STRICT");
    reveal_strlit("ACC_SYNTHETIC");
    let items = spec_method_flag_items(raw);
    assert(items[0].1 == "ACC_PUBLIC"@);
    assert(items[1].1 == "ACC_PRIVATE"@);
    assert(items[2].1 == "ACC_PROTECTED"@);
    assert(items[3].1 == "ACC_STATIC"@);
    assert(items[4].1 == "ACC_FINAL"@);
    assert(items[5].1 == "ACC_SYNCHRONIZED"@);
    assert(items[6].1 == "ACC_BRIDGE"@);
    assert(items[7].1 == "ACC_VARARGS"@);
    assert(items[8].1 == "ACC_NATIVE"@);
    assert(items[9].1 == "ACC_ABSTRACT"@);
    assert(items[10].1 == "ACC_STRICT"@);
    assert(items[11].1 == "ACC_SYNTHETIC"@);
    lemma_selected_contains(items, "ACC_PUBLIC"@);
    if spec_selected(items).contains("ACC_PUBLIC"@) {
        let k = choose|k: int| 0 <= k < items.len() && (#[trigger] items[k]).0 && items[k].1 == "ACC_PUBLIC"@;
        if k == 0 {} else if k == 1 {} else if k == 2 {} else if k == 3 { assert("ACC_STATIC"@[4] != "ACC_PUBLIC"@[4]); } else if k == 4 {} else if k == 5 {} else if k == 6 { assert("ACC_BRIDGE"@[4] != "ACC_PUBLIC"@[4]); } else if k == 7 {} else if k == 8 { assert("ACC_NATIVE"@[4] != "ACC_PUBLIC"@[4]); } else if k == 9 {} else if k == 10 { assert("ACC_STRICT"@[4] != "ACC_PUBLIC"@[4]); } else if k == 11 {}
        assert(k == 0);
    }
    lemma_selected_contains(items, "ACC_PRIVATE"@);
    if spec_selected(items).contains("ACC_PRIVATE"@) {
        let k = choose|k: int| 0 <= k < items.len() && (#[trigger] items[k]).0 && items[k].1 == "ACC_PRIVATE"@;
        if k == 0 {} else if k == 1 {} else if k == 2 {} else if k == 3 {} else if k == 4 {} else if k == 5 {} else if k == 6 {} else if k == 7 { assert("ACC_VARARGS"@[4] != "ACC_PRIVATE"@[4]); } else if k == 8 {} else if k == 9 {} else if k == 10 {} else if k == 11 {}
        assert(k == 1);
    }
    lemma_selected_contains(items, "ACC_PROTECTED"@);
    if spec_selected(items).contains("ACC_PROTECTED"@) {
        let k = choose|k: int| 0 <= k < items.len() && (#[trigger] items[k]).0 && items[k].1 == "ACC_PROTECTED"@;
        if k == 0 {} else if k == 1 {} else if k == 2 {} else if k == 3 {} else if k == 4 {} else if k == 5 {} else if k == 6 {} else if k == 7 {} else if k == 8 {} else if k == 9 {} else if k == 10 {} else if k == 11 { assert("ACC_SYNTHETIC"@[4] != "ACC_PROTECTED"@[4]); }
        assert(k == 2);
    }
    lemma_selected_contains(items, "ACC_STATIC"@);
    if spec_selected(items).contains("ACC_STATIC"@) {
        let k = choose|k: int| 0 <= k < items.len() && (#[trigger] items[k]).0 && items[k].1 == "ACC_STATIC"@;
        if k == 0 { assert("ACC_PUBLIC"@[4] != "ACC_STATIC"@[4]); } else if k == 1 {} else if k == 2 {} else if k == 3 {} else if k == 4 {} else if k == 5 {} else if k == 6 { assert("ACC_BRIDGE"@[4] != "ACC_STATIC"@[4]); } else if k == 7 {} else if k == 8 { assert("ACC_NATIVE"@[4] != "ACC_STATIC"@[4]); } else if k == 9 {} else if k == 10 { assert("ACC_STRICT"@[6] != "ACC_STATIC"@[6]); } else if k == 11 {}
        assert(k == 3);
    }
    lemma_selected_contains(items, "ACC_FINAL"@);
    if spec_selected(items).contains("ACC_FINAL"@) {
        let k = choose|k: int| 0 <= k < items.len() && (#[trigger] items[k]).0 && items[k].1 == "ACC_FINAL"@;
        if k == 0 {} else if k == 1 {} else if k == 2 {} else if k == 3 {} else if k == 4 {} else if k == 5 {} else if k == 6 {} else if k == 7 {} else if k == 8 {} else if k == 9 {} else if k == 10 {} else if k == 11 {}
        assert(k == 4);
    }
    lemma_selected_contains(items, "ACC_SYNCHRONIZED"@);
    if spec_selected(items).contains("ACC_SYNCHRONIZED"@) {
        let k = choose|k: int| 0 <= k < items.len() && (#[trigger] items[k]).0 && items[k].1 == "ACC_SYNCHRONIZED"@;
        if k == 0 {} else if k == 1 {} else if k == 2 {} else if k == 3 {} else if k == 4 {} else if k == 5 {} else if k == 6 {} else if k == 7 {} else if k == 8 {} else if k == 9 {} else if k == 10 {} else if k == 11 {}
        assert(k == 5);
    }
    lemma_selected_contains(items, "ACC_BRIDGE"@);
    if spec_selected(items).contains("ACC_BRIDGE"@) {
        let k = choose|k: int| 0 <= k < items.len() && (#[trigger] items[k]).0 && items[k].1 == "ACC_BRIDGE"@;
        if k == 0 { assert("ACC_PUBLIC"@[4] != "ACC_BRIDGE"@[4]); } else if k == 1 {} else if k == 2 {} else if k == 3 { assert("ACC_STATIC"@[4] != "ACC_BRIDGE"@[4]); } else if k == 4 {} else if k == 5 {} else if k == 6 {} else if k == 7 {} else if k == 8 { assert("ACC_NATIVE"@[4] != "ACC_BRIDGE"@[4]); } else if k == 9 {} else if k == 10 { assert("ACC_STRICT"@[4] != "ACC_BRIDGE"@[4]); } else if k == 11 {}
        assert(k == 6);
    }
    lemma_selected_contains(items, "ACC_VARARGS"@);
    if spec_selected(items).contains("ACC_VARARGS"@) {
        let k = choose|k: int| 0 <= k < items.len() && (#[trigger] items[k]).0 && items[k].1 == "ACC_VARARGS"@;
        if k == 0 {} else if k == 1 { assert("ACC_PRIVATE"@[4] != "ACC_VARARGS"@[4]); } else if k == 2 {} else if k == 3 {} else if k == 4 {} else if k == 5 {} else if k == 6 {} else if k == 7 {} else if k == 8 {} else if k == 9 {} else if k == 10 {} else if k == 11 {}
        assert(k == 7);
    }
    lemma_selected_contains(items, "ACC_NATIVE"@);
    if spec_selected(items).contains("ACC_NATIVE"@) {
        let k = choose|k: int| 0 <= k < items.len() && (#[trigger] items[k]).0 && items[k].1 == "ACC_NATIVE"@;
        if k == 0 { assert("ACC_PUBLIC"@[4] != "ACC_NATIVE"@[4]); } else if k == 1 {} else if k == 2 {} else if k == 3 { assert("ACC_STATIC"@[4] != "ACC_NATIVE"@[4]); } else if k == 4 {} else if k == 5 {} else if k == 6 { assert("ACC_BRIDGE"@[4] != "ACC_NATIVE"@[4]); } else if k == 7 {} else if k == 8 {} else if k == 9 {} else if k == 10 { assert("ACC_STRICT"@[4] != "ACC_NATIVE"@[4]); } else if k == 11 {}
        assert(k == 8);
    }
    lemma_selected_contains(items, "ACC_ABSTRACT"@);
    if spec_selected(items).contains("ACC_ABSTRACT"@) {
        let k = choose|k: int| 0 <= k < items.len() && (#[trigger] items[k]).0 && items[k].1 == "ACC_ABSTRACT"@;
        if k == 0 {} else if k == 1 {} else if k == 2 {} else if k == 3 {} else if k == 4 {} else if k == 5 {} else if k == 6 {} else if k == 7 {} else if k == 8 {} else if k == 9 {} else if k == 10 {} else if k == 11 {}
        assert(k == 9);
    }
    lemma_selected_contains(items, "ACC_STRICT"@);
    if spec_selected(items).contains("ACC_STRICT"@) {
        let k = choose|k: int| 0 <= k < items.len() && (#[trigger] items[k]).0 && items[k].1 == "ACC_STRICT"@;
        if k == 0 { assert("ACC_PUBLIC"@[4] != "ACC_STRICT"@[4]); } else if k == 1 {} else if k == 2 {} else if k == 3 { assert("ACC_STATIC"@[6] != "ACC_STRICT"@[6]); } else if k == 4 {} else if k == 5 {} else if k == 6 { assert("ACC_BRIDGE"@[4] != "ACC_STRICT"@[4]); } else if k == 7 {} else if k == 8 { assert("ACC_NATIVE"@[4] != "ACC_STRICT"@[4]); } else if k == 9 {} else if k == 10 {} else if k == 11 {}
        assert(k == 10);
    }
    lemma_selected_contains(items, "ACC_SYNTHETIC"@);
    if spec_selected(items).contains("ACC_SYNTHETIC"@) {
        let k = choose|k: int| 0 <= k < items.len() && (#[trigger] items[k]).0 && items[k].1 == "ACC_SYNTHETIC"@;
        if k == 0 {} else if k == 1 {} else if k == 2 { assert("ACC_PROTECTED"@[4] != "ACC_SYNTHETIC"@[4]); } else if k == 3 {} else if k == 4 {} else if k == 5 {} else if k == 6 {} else if k == 7 {} else if k == 8 {} else if k == 9 {} else if k == 10 {} else if k == 11 {}
        assert(k == 11);
    }
}

/// Every flag that javap names for a field is listed exactly when its bit is set in the
/// raw flag word: the list is the selected names joined by `, `, and each `ACC_` name is
/// among them exactly when `raw` has its mask.
#[verifier::spinoff_prover]
#[verifier::rlimit(100)]
pub proof fn lemma_field_flag_list_names(raw: u16)
    ensures
        spec_field_flag_list(raw) == spec_join(spec_selected(spec_field_flag_items(raw)), ", "@),
        spec_selected(spec_field_flag_items(raw)).contains("ACC_PUBLIC"@) <==> raw & 0x0001 != 0,
        spec_selected(spec_field_flag_items(raw)).contains("ACC_PRIVATE"@) <==> raw & 0x0002 != 0,
        spec_selected(spec_field_flag_items(raw)).contains("ACC_PROTECTED"@) <==> raw & 0x0004 != 0,
        spec_selected(spec_field_flag_items(raw)).contains("ACC_STATIC"@) <==> raw & 0x0008 != 0,
        spec_selected(spec_field_flag_items(raw)).contains("ACC_FINAL"@) <==> raw & 0x0010 != 0,
        spec_selected(spec_field_flag_items(raw)).contains("ACC_VOLATILE"@) <==> raw & 0x0040 != 0,
        spec_selected(spec_field_flag_items(raw)).contains("ACC_TRANSIENT"@) <==> raw & 0x0080 != 0,
        spec_selected(spec_field_flag_items(raw)).contains("ACC_SYNTHETIC"@) <==> raw & 0x1000 != 0,
        spec_selected(spec_field_flag_items(raw)).contains("ACC_ENUM"@) <==> raw & 0x4000 != 0,
{
    reveal_strlit("ACC_PUBLIC");
    reveal_strlit("ACC_PRIVATE");
    reveal_strlit("ACC_PROTECTED");
    reveal_strlit("ACC_STATIC");
    reveal_strlit("ACC_FINAL");
    reveal_strlit("ACC_VOLATILE");
    reveal_strlit("ACC_TRANSIENT");
    reveal_strlit("ACC_SYNTHETIC");
    reveal_strlit("ACC_ENUM");
    let items = spec_field_flag_items(raw);
    assert(items[0].1 == "ACC_PUBLIC"@);
    assert(items[1].1 == "ACC_PRIVATE"@);
    assert(items[2].1 == "ACC_PROTECTED"@);
    assert(items[3].1 == "ACC_STATIC"@);
    assert(items[4].1 == "ACC_FINAL"@);
    assert(items[5].1 == "ACC_VOLATILE"@);
    assert(items[6].1 == "ACC_TRANSIENT"@);
    assert(items[7].1 == "ACC_SYNTHETIC"@);
    assert(items[8].1 == "ACC_ENUM"@);
    lemma_selected_contains(items, "ACC_PUBLIC"@);
    if spec_selected(items).contains("ACC_PUBLIC"@) {
        let k = choose|k: int| 0 <= k < items.len() && (#[trigger] items[k]).0 && items[k].1 == "ACC_PUBLIC"@;
        if k == 0 {} else if k == 1 {} else if k == 2 {} else if k == 3 { assert("ACC_STATIC"@[4] != "ACC_PUBLIC"@[4]); } else if k == 4 {} else if k == 5 {} else if k == 6 {} else if k == 7 {} else if k == 8 {}
        assert(k == 0);
    }
    lemma_selected_contains(items, "ACC_PRIVATE"@);
    if spec_selected(items).contains("ACC_PRIVATE"@) {
        let k = choose|k: int| 0 <= k < items.len() && (#[trigger] items[k]).0 && items[k].1 == "ACC_PRIVATE"@;
        if k == 0 {} else if k == 1 {} else if k == 2 {} else if k == 3 {} else if k == 4 {} else if k == 5 {} else if k == 6 {} else if k == 7 {} else if k == 8 {}
        assert(k == 1);
    }
    lemma_selected_contains(items, "ACC_PROTECTED"@);
    if spec_selected(items).contains("ACC_PROTECTED"@) {
        let k = choose|k: int| 0 <= k < items.len() && (#[trigger] items[k]).0 && items[k].1 == "ACC_PROTECTED"@;
        if k == 0 {} else if k == 1 {} else if k == 2 {} else if k == 3 {} else if k == 4 {} else if k == 5 {} else if k == 6 { assert("ACC_TRANSIENT"@[4] != "ACC_PROTECTED"@[4]); } else if k == 7 { assert("ACC_SYNTHETIC"@[4] != "ACC_PROTECTED"@[4]); } else if k == 8 {}
        assert(k == 2);
    }
    lemma_selected_contains(items, "ACC_STATIC"@);
    if spec_selected(items).contains("ACC_STATIC"@) {
        let k = choose|k: int| 0 <= k < items.len() && (#[trigger] items[k]).0 && items[k].1 == "ACC_STATIC"@;
        if k == 0 { assert("ACC_PUBLIC"@[4] != "ACC_STATIC"@[4]); } else if k == 1 {} else if k == 2 {} else if k == 3 {} else if k == 4 {} else if k == 5 {} else if k == 6 {} else if k == 7 {} else if k == 8 {}
        assert(k == 3);
    }
    lemma_selected_contains(items, "ACC_FINAL"@);
    if spec_selected(items).contains("ACC_FINAL"@) {
        let k = choose|k: int| 0 <= k < items.len() && (#[trigger] items[k]).0 && items[k].1 == "ACC_FINAL"@;
        if k == 0 {} else if k == 1 {} else if k == 2 {} else if k == 3 {} else if k == 4 {} else if k == 5 {} else if k == 6 {} else if k == 7 {} else if k == 8 {}
        assert(k == 4);
    }
    lemma_selected_contains(items, "ACC_VOLATILE"@);
    if spec_selected(items).contains("ACC_VOLATILE"@) {
        let k = choose|k: int| 0 <= k < items.len() && (#[trigger] items[k]).0 && items[k].1 == "ACC_VOLATILE"@;
        if k == 0 {} else if k == 1 {} else if k == 2 {} else if k == 3 {} else if k == 4 {} else if k == 5 {} else if k == 6 {} else if k == 7 {} else if k == 8 {}
        assert(k == 5);
    }
    lemma_selected_contains(items, "ACC_TRANSIENT"@);
    if spec_selected(items).contains("ACC_TRANSIENT"@) {
        let k = choose|k: int| 0 <= k < items.len() && (#[trigger] items[k]).0 && items[k].1 == "ACC_TRANSIENT"@;
        if k == 0 {} else if k == 1 {} else if k == 2 { assert("ACC_PROTECTED"@[4] != "ACC_TRANSIENT"@[4]); } else if k == 3 {} else if k == 4 {} else if k == 5 {} else if k == 6 {} else if k == 7 { assert("ACC_SYNTHETIC"@[4] != "ACC_TRANSIENT"@[4]); } else if k == 8 {}
        assert(k == 6);
    }
    lemma_selected_contains(items, "ACC_SYNTHETIC"@);
    if spec_selected(items).contains("ACC_SYNTHETIC"@) {
        let k = choose|k: int| 0 <= k < items.len() && (#[trigger] items[k]).0 && items[k].1 == "ACC_SYNTHETIC"@;
        if k == 0 {} else if k == 1 {} else if k == 2 { assert("ACC_PROTECTED"@[4] != "ACC_SYNTHETIC"@[4]); } else if k == 3 {} else if k == 4 {} else if k == 5 {} else if k == 6 { assert("ACC_TRANSIENT"@[4] != "ACC_SYNTHETIC"@[4]); } else if k == 7 {} else if k == 8 {}
        assert(k == 7);
    }
    lemma_selected_contains(items, "ACC_ENUM"@);
    if spec_selected(items).contains("ACC_ENUM"@) {
        let k = choose|k: int| 0 <= k < items.len() && (#[trigger] items[k]).0 && items[k].1 == "ACC_ENUM"@;
        if k == 0 {} else if k == 1 {} else if k == 2 {} else if k == 3 {} else if k == 4 {} else if k == 5 {} else if k == 6 {} else if k == 7 {} else if k == 8 {}
        assert(k == 8);
    }
}


/// The modifiers javap shows for a nested class are its set flags among `public`,
/// `private`, `protected` and `static`, and `abstract` and `final` when set on a class
/// that is neither an interface nor an annotation interface; they are joined by spaces.
#[verifier::spinoff_prover]
#[verifier::rlimit(100)]
pub proof fn lemma_inner_class_modifiers(raw: u16)
    ensures
        spec_inner_class_prefix(raw) == spec_join(spec_selected(spec_inner_class_items(raw)), " "@),
        spec_selected(spec_inner_class_items(raw)).contains("public"@) <==> (raw & 0x0001 != 0),
        spec_selected(spec_inner_class_items(raw)).contains("private"@) <==> (raw & 0x0002 != 0),
        spec_selected(spec_inner_class_items(raw)).contains("protected"@) <==> (raw & 0x0004 != 0),
        spec_selected(spec_inner_class_items(raw)).contains("static"@) <==> (raw & 0x0008 != 0),
        spec_selected(spec_inner_class_items(raw)).contains("abstract"@) <==> (raw & 0x0400 != 0 && raw & 0x0200 == 0 && raw & 0x2000 == 0),
        spec_selected(spec_inner_class_items(raw)).contains("final"@) <==> (raw & 0x0010 != 0 && raw & 0x0200 == 0 && raw & 0x2000 == 0),
{
    reveal_strlit("public");
    reveal_strlit("private");
    reveal_strlit("protected");
    reveal_strlit("static");
    reveal_strlit("abstract");
    reveal_strlit("final");
    let items = spec_inner_class_items(raw);
    assert(items[0].1 == "public"@);
    assert(items[1].1 == "private"@);
    assert(items[2].1 == "protected"@);
    assert(items[3].1 == "static"@);
    assert(items[4].1 == "abstract"@);
    assert(items[5].1 == "final"@);
    lemma_selected_contains(items, "public"@);
    if spec_selected(items).contains("public"@) {
        let k = choose|k: int| 0 <= k < items.len() && (#[trigger] items[k]).0 && items[k].1 == "public"@;
        if k == 0 {} else if k == 1 {} else if k == 2 {} else if k == 3 { assert("static"@[0] != "public"@[0]); } else if k == 4 {} else if k == 5 {}
        assert(k == 0);
    }
    lemma_selected_contains(items, "private"@);
    if spec_selected(items).contains("private"@) {
        let k = choose|k: int| 0 <= k < items.len() && (#[trigger] items[k]).0 && items[k].1 == "private"@;
        if k == 0 {} else if k == 1 {} else if k == 2 {} else if k == 3 {} else if k == 4 {} else if k == 5 {}
        assert(k == 1);
    }
    lemma_selected_contains(items, "protected"@);
    if spec_selected(items).contains("protected"@) {
        let k = choose|k: int| 0 <= k < items.len() && (#[trigger] items[k]).0 && items[k].1 == "protected"@;
        if k == 0 {} else if k == 1 {} else if k == 2 {} else if k == 3 {} else if k == 4 {} else if k == 5 {}
        assert(k == 2);
    }
    lemma_selected_contains(items, "static"@);
    if spec_selected(items).contains("static"@) {
        let k = choose|k: int| 0 <= k < items.len() && (#[trigger] items[k]).0 && items[k].1 == "static"@;
        if k == 0 { assert("public"@[0] != "static"@[0]); } else if k == 1 {} else if k == 2 {} else if k == 3 {} else if k == 4 {} else if k == 5 {}
        assert(k == 3);
    }
    lemma_selected_contains(items, "abstract"@);
    if spec_selected(items).contains("abstract"@) {
        let k = choose|k: int| 0 <= k < items.len() && (#[trigger] items[k]).0 && items[k].1 == "abstract"@;
        if k == 0 {} else if k == 1 {} else if k == 2 {} else if k == 3 {} else if k == 4 {} else if k == 5 {}
        assert(k == 4);
    }
    lemma_selected_contains(items, "final"@);
    if spec_selected(items).contains("final"@) {
        let k = choose|k: int| 0 <= k < items.len() && (#[trigger] items[k]).0 && items[k].1 == "final"@;
        if k == 0 {} else if k == 1 {} else if k == 2 {} else if k == 3 {} else if k == 4 {} else if k == 5 {}
        assert(k == 5);
    }
}


/// The Java-like modifiers of a method: its access word (`public `, else `protected `,
/// else `private `), then `static `, `final `, `synchronized `, `native `, `abstract ` and
/// `strictfp ` each exactly when its bit is set, in that order.
#[verifier::spinoff_prover]
pub proof fn lemma_method_modifier_words(raw: u16)
    ensures
        spec_method_prefix(raw) == (if raw & 0x0001 != 0 {
            "public "@
        } else if raw & 0x0004 != 0 {
            "protected "@
        } else if raw & 0x0002 != 0 {
            "private "@
        } else {
            seq![]
        }) + ((if raw & 0x0008 != 0 { "static "@ } else { seq![] }) + (if raw & 0x0010 != 0 {
            "final "@
        } else {
            seq![]
        }) + (if raw & 0x0020 != 0 { "synchronized "@ } else { seq![] }) + (if raw & 0x0100 != 0 {
            "native "@
        } else {
            seq![]
        }) + (if raw & 0x0400 != 0 { "abstract "@ } else { seq![] }) + (if raw & 0x0800 != 0 {
            "strictfp "@
        } else {
            seq![]
        })),
{
    let a = if has_flag(raw, 0x0001) {
        "public "@
    } else if has_flag(raw, 0x0004) {
        "protected "@
    } else if has_flag(raw, 0x0002) {
        "private "@
    } else {
        seq![]
    };
    let w0 = word(has_flag(raw, 0x0008), "static "@);
    let w1 = word(has_flag(raw, 0x0010), "final "@);
    let w2 = word(has_flag(raw, 0x0020), "synchronized "@);
    let w3 = word(has_flag(raw, 0x0100), "native "@);
    let w4 = word(has_flag(raw, 0x0400), "abstract "@);
    let w5 = word(has_flag(raw, 0x0800), "strictfp "@);
    let b1 = w0;
    let b2 = b1 + w1;
    let b3 = b2 + w2;
    let b4 = b3 + w3;
    let b5 = b4 + w4;
    vstd::seq_lib::lemma_concat_associative(a, b1, w1);
    vstd::seq_lib::lemma_concat_associative(a, b2, w2);
    vstd::seq_lib::lemma_concat_associative(a, b3, w3);
    vstd::seq_lib::lemma_concat_associative(a, b4, w4);
    vstd::seq_lib::lemma_concat_associative(a, b5, w5);
}


/// The Java-like modifiers of a field: its access word (`public `, else `protected `,
/// else `private `), then `static `, `final `, `volatile ` and `transient ` each exactly
/// when its bit is set, in that order; the pretty form adds `enum ` for enum constants.
#[verifier::spinoff_prover]
pub proof fn lemma_field_modifier_words(raw: u16)
    ensures
        spec_field_prefix(raw) == (if raw & 0x0001 != 0 {
            "public "@
        } else if raw & 0x0004 != 0 {
            "protected "@
        } else if raw & 0x0002 != 0 {
            "private "@
        } else {
            seq![]
        }) + ((if raw & 0x0008 != 0 { "static "@ } else { seq![] }) + (if raw & 0x0010 != 0 { "final "@ } else { seq![] }) + (if raw & 0x0040 != 0 { "volatile "@ } else { seq![] }) + (if raw & 0x0080 != 0 { "transient "@ } else { seq![] })),
        spec_field_pretty_prefix(raw) == spec_field_prefix(raw) + (if raw & 0x4000 != 0 { "enum "@ } else { seq![] }),
{
    let a = if has_flag(raw, 0x0001) {
        "public "@
    } else if has_flag(raw, 0x0004) {
        "protected "@
    } else if has_flag(raw, 0x0002) {
        "private "@
    } else {
        seq![]
    };
    let w0 = word(has_flag(raw, 0x0008), "static "@);
    let w1 = word(has_flag(raw, 0x0010), "final "@);
    let w2 = word(has_flag(raw, 0x0040), "volatile "@);
    let w3 = word(has_flag(raw, 0x0080), "transient "@);
    let b1 = w0;
    vstd::seq_lib::lemma_concat_associative(a, b1, w1);
    let b2 = b1 + w1;
    vstd::seq_lib::lemma_concat_associative(a, b2, w2);
    let b3 = b2 + w2;
    vstd::seq_lib::lemma_concat_associative(a, b3, w3);
}

/// The modifiers of a method parameter: `final `, `synthetic ` and `mandated `, each
/// exactly when its bit is set, in that order.
pub proof fn lemma_param_modifier_words(raw: u16)
    ensures
        spec_param_prefix(raw) == (if raw & 0x0010 != 0 { "final "@ } else { seq![] }) + (if raw & 0x1000 != 0 { "synthetic "@ } else { seq![] }) + (if raw & 0x8000 != 0 { "mandated "@ } else { seq![] }),
{
}

/// The Java-like declaration prefix of a class: `public ` when set; `abstract ` and
/// `final ` when set on a class that is not an interface, annotation interface or module;
/// then its kind: `module `, else `@interface `, else `interface `, else (where enums are
/// named) `enum ` for an enum, else `class `.
pub proof fn lemma_class_prefix_words(raw: u16, enum_kind: bool)
    ensures
        spec_class_prefix(raw, enum_kind) == (if raw & 0x0001 != 0 { "public "@ } else { seq![] }) + (if raw & 0x0400 != 0 && raw & 0x0200 == 0 && raw
            & 0x2000 == 0 && raw & 0x8000 == 0 {
            "abstract "@
        } else {
            seq![]
        }) + (if raw & 0x0010 != 0 && raw & 0x0200 == 0 && raw & 0x2000 == 0 && raw & 0x8000 == 0 {
            "final "@
        } else {
            seq![]
        }) + (if raw & 0x8000 != 0 {
            "module "@
        } else if raw & 0x2000 != 0 {
            "@interface "@
        } else if raw & 0x0200 != 0 {
            "interface "@
        } else if enum_kind && raw & 0x4000 != 0 {
            "enum "@
        } else {
            "class "@
        }),
{
}

} // verus!
