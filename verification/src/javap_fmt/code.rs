//! The `javap -v` listing of the attributes that a `Code` attribute holds.

use crate::attribute::method::code::{
    line_number_reader, local_variable_reader, spec_read_frame, CodeAttributeInfo, LineNumberEntry, LocalVariableEntry, LocalVariableTypeEntry, SpecCodeAttributeInfo,
    SpecStackMapFrame, StackMapFrame, VerificationTypeInfo,
};
use crate::attribute::method::{CodeAttribute, ExceptionTableEntry, SpecCodeAttribute, exception_reader};
use crate::bytecode::instruction::{Instruction, SpecInstruction, lemma_decode_length, spec_byte_size, spec_decode, spec_encoded_len};
use crate::constant_pool::pool::{spec_get_class_name, spec_get_utf8};
use crate::javap_fmt::constant_pool::opt_views;
use crate::print::{instruction_text, listing_comment, spec_comment_listable, spec_instruction_text, spec_listing_comment};
use crate::javap_fmt::instruction::spec_value_fits;
use crate::javap_fmt::word;
use crate::constant_pool::{ConstantPool, SpecConstantEntry};
use crate::cursor::be_u16;
use crate::error::ClassFormatErr;
use crate::javap_fmt::attribute::{spec_verification_type_shown, spec_verification_type_text};
use crate::javap_fmt::lines::{
    JavapLine, SpecListing, SpecText, appended, emit, lemma_each_all, lemma_each_err, lemma_each_step,
    lemma_try_join_each_err, lemma_try_join_each_step, spec_cat, spec_each, spec_line, spec_lines,
    spec_try_join_each, spec_wrap, text_is,
};
use crate::read::views;
use crate::text::{decimal, push_decimal, push_digits, push_padded_left, push_padded_right, spec_decimal, spec_digits, spec_pad_left, spec_pad_right};
use vstd::prelude::*;

verus! {

/// The text of a verification type, as a function of the type.
pub open spec fn verification_text_fn(cp: Seq<SpecConstantEntry>, this: u16) -> spec_fn(VerificationTypeInfo) -> SpecText {
    |v: VerificationTypeInfo| spec_verification_type_text(cp, v, this)
}

/// The verification types `vs` as javap lists them, joined by `, `.
pub open spec fn spec_verification_list(cp: Seq<SpecConstantEntry>, vs: Seq<VerificationTypeInfo>, this: u16) -> SpecText {
    spec_try_join_each(vs, verification_text_fn(cp, this), ", "@)
}

/// Whether every verification type of `vs` can be shown.
pub open spec fn spec_all_shown(cp: Seq<SpecConstantEntry>, vs: Seq<VerificationTypeInfo>) -> bool {
    forall|i: int| 0 <= i < vs.len() ==> spec_verification_type_shown(cp, #[trigger] vs[i])
}

/// Whether javap can list a frame: its types can be shown, and the frame type that it
/// computes from `k` or the offset does not overflow.
pub open spec fn spec_frame_listable(cp: Seq<SpecConstantEntry>, f: SpecStackMapFrame) -> bool {
    &&& spec_frame_listable_head(f)
    &&& match f {
        SpecStackMapFrame::SameLocals1StackItem { stack, .. } => spec_verification_type_shown(cp, stack),
        SpecStackMapFrame::SameLocals1StackItemExtended { stack, .. } => spec_verification_type_shown(cp, stack),
        SpecStackMapFrame::Append { locals, .. } => spec_all_shown(cp, locals),
        SpecStackMapFrame::Full { locals, stack, .. } => spec_all_shown(cp, locals) && spec_all_shown(cp, stack),
        _ => true,
    }
}

/// Whether the frame type that javap computes for a frame from `k` or the offset does
/// not overflow.
pub open spec fn spec_frame_listable_head(f: SpecStackMapFrame) -> bool {
    match f {
        SpecStackMapFrame::SameLocals1StackItem { offset_delta, .. } => offset_delta + 64 <= u16::MAX,
        SpecStackMapFrame::Chop { k, .. } => k <= 251,
        SpecStackMapFrame::Append { k, .. } => k + 251 <= u8::MAX,
        _ => true,
    }
}

/// The `offset_delta = ` line of a frame.
pub open spec fn spec_offset_line(offset_delta: u16) -> Seq<char> {
    "offset_delta = "@ + spec_decimal(offset_delta as int)
}

/// The first line of a stack map frame: its frame type, and its kind in a comment.
pub open spec fn spec_frame_head(f: SpecStackMapFrame) -> Seq<char> {
    "frame_type = "@ + match f {
        SpecStackMapFrame::Same { offset_delta } => spec_decimal(offset_delta as int) + " /* same */"@,
        SpecStackMapFrame::SameLocals1StackItem { offset_delta, .. } => spec_decimal(offset_delta + 64)
            + " /* same_locals_1_stack_item */"@,
        SpecStackMapFrame::SameLocals1StackItemExtended { .. } => "247 /* same_locals_1_stack_item_frame_extended */"@,
        SpecStackMapFrame::Chop { k, .. } => spec_decimal(251 - k) + " /* chop */"@,
        SpecStackMapFrame::SameExtended { .. } => "251 /* same_frame_extended */"@,
        SpecStackMapFrame::Append { k, .. } => spec_decimal(251 + k) + " /* append */"@,
        SpecStackMapFrame::Full { .. } => "255 /* full_frame */"@,
    }
}

/// The lines that follow the first line of a stack map frame, at depth `d`: its offset
/// where it has one after the frame type, and the types it holds.
pub open spec fn spec_frame_body(cp: Seq<SpecConstantEntry>, f: SpecStackMapFrame, this: u16, d: usize) -> SpecListing {
    match f {
        SpecStackMapFrame::Same { .. } => Ok(seq![]),
        SpecStackMapFrame::SameLocals1StackItem { stack, .. } => spec_line(
            d,
            spec_wrap("stack = [ "@, spec_verification_type_text(cp, stack, this), " ]"@),
        ),
        SpecStackMapFrame::SameLocals1StackItemExtended { offset_delta, stack } => spec_cat(
            Ok(seq![(d, spec_offset_line(offset_delta))]),
            spec_line(d, spec_wrap("stack = [ "@, spec_verification_type_text(cp, stack, this), " ]"@)),
        ),
        SpecStackMapFrame::Chop { offset_delta, .. } => Ok(seq![(d, spec_offset_line(offset_delta))]),
        SpecStackMapFrame::SameExtended { offset_delta } => Ok(seq![(d, spec_offset_line(offset_delta))]),
        SpecStackMapFrame::Append { offset_delta, locals, .. } => spec_cat(
            Ok(seq![(d, spec_offset_line(offset_delta))]),
            spec_line(d, spec_wrap("locals = ["@, spec_verification_list(cp, locals, this), "]"@)),
        ),
        SpecStackMapFrame::Full { offset_delta, locals, stack } => spec_cat(
            spec_cat(
                Ok(seq![(d, spec_offset_line(offset_delta))]),
                spec_line(d, spec_wrap("locals = ["@, spec_verification_list(cp, locals, this), "]"@)),
            ),
            spec_line(d, spec_wrap("stack = ["@, spec_verification_list(cp, stack, this), "]"@)),
        ),
    }
}

/// The lines of a stack map frame at depth `d`: its first line, then what it holds one
/// level deeper.
#[verifier::opaque]
pub open spec fn spec_frame_lines(cp: Seq<SpecConstantEntry>, f: SpecStackMapFrame, this: u16, d: usize) -> SpecListing {
    spec_cat(Ok(seq![(d, spec_frame_head(f))]), spec_frame_body(cp, f, this, (d + 1) as usize))
}

/// `pre`, `v` in decimal, then `post`.
fn number_text(pre: &str, v: i64, post: &str) -> (r: String)
    ensures
        r@ == pre@ + spec_decimal(v as int) + post@,
{
    let mut s = pre.to_string();
    push_decimal(&mut s, v);
    s.append(post);
    s
}

/// The `offset_delta = ` line of a frame.
fn offset_text(offset_delta: u16) -> (r: String)
    ensures
        r@ == spec_offset_line(offset_delta),
{
    let mut s = "offset_delta = ".to_string();
    push_decimal(&mut s, offset_delta as i64);
    s
}

/// `pre`, `t`, then `post`.
fn wrapped(pre: &str, t: &str, post: &str) -> (r: String)
    ensures
        r@ == pre@ + t@ + post@,
{
    let mut s = pre.to_string();
    s.append(t);
    s.append(post);
    s
}

/// The verification types `vs` as javap lists them, joined by `, `.
fn verification_list(cp: &ConstantPool, vs: &Vec<VerificationTypeInfo>, this: &u16) -> (r: Result<String, ClassFormatErr>)
    requires
        spec_all_shown(cp@, vs@),
    ensures
        text_is(r, spec_verification_list(cp@, vs@, *this)),
{
    let ghost f = verification_text_fn(cp@, *this);
    let mut s = String::new();
    let mut i: usize = 0;
    while i < vs.len()
        invariant
            i <= vs@.len(),
            spec_all_shown(cp@, vs@),
            f == verification_text_fn(cp@, *this),
            spec_try_join_each(vs@.take(i as int), f, ", "@) == SpecText::Ok(s@),
        decreases vs@.len() - i,
    {
        proof {
            lemma_try_join_each_step(vs@, f, ", "@, i as int);
        }
        assert(spec_verification_type_shown(cp@, vs@[i as int]));
        let t = vs[i].get_javap_value(cp, this);
        match t {
            Err(e) => {
                proof {
                    lemma_try_join_each_err(vs@, f, ", "@, i + 1);
                }
                return Err(e);
            },
            Ok(t) => {
                if i > 0 {
                    s.append(", ");
                }
                s.append(t.as_str());
            },
        }
        i = i + 1;
    }
    proof {
        assert(vs@.take(vs@.len() as int) =~= vs@);
    }
    Ok(s)
}

impl StackMapFrame {
    /// The first line of this frame.
    fn head(&self) -> (r: String)
        requires
            spec_frame_listable_head(self@),
        ensures
            r@ == spec_frame_head(self@),
    {
        let mut s = "frame_type = ".to_string();
        match self {
            StackMapFrame::Same { offset_delta } => {
                push_decimal(&mut s, *offset_delta as i64);
                s.append(" /* same */");
            },
            StackMapFrame::SameLocals1StackItem { offset_delta, .. } => {
                push_decimal(&mut s, *offset_delta as i64 + 64);
                s.append(" /* same_locals_1_stack_item */");
            },
            StackMapFrame::SameLocals1StackItemExtended { .. } => {
                s.append("247 /* same_locals_1_stack_item_frame_extended */");
            },
            StackMapFrame::Chop { k, .. } => {
                push_decimal(&mut s, 251 - *k as i64);
                s.append(" /* chop */");
            },
            StackMapFrame::SameExtended { .. } => {
                s.append("251 /* same_frame_extended */");
            },
            StackMapFrame::Append { k, .. } => {
                push_decimal(&mut s, 251 + *k as i64);
                s.append(" /* append */");
            },
            StackMapFrame::Full { .. } => {
                s.append("255 /* full_frame */");
            },
        }
        assert(s@ =~= spec_frame_head(self@));
        s
    }

    /// Appends the lines that follow the first line of this frame, at depth `d`.
    fn body(&self, cp: &ConstantPool, this: &u16, d: usize, out: &mut Vec<JavapLine>) -> (r: Result<(), ClassFormatErr>)
        requires
            spec_frame_listable(cp@, self@),
        ensures
            appended(r, old(out)@, final(out)@, spec_frame_body(cp@, self@, *this, d)),
    {
        let ghost before = spec_lines(out@);
        match self {
            StackMapFrame::Same { .. } => {},
            StackMapFrame::SameLocals1StackItem { stack, .. } => {
                let v = stack.get_javap_value(cp, this)?;
                emit(out, d, wrapped("stack = [ ", v.as_str(), " ]"));
            },
            StackMapFrame::SameLocals1StackItemExtended { offset_delta, stack } => {
                emit(out, d, offset_text(*offset_delta));
                let v = stack.get_javap_value(cp, this)?;
                emit(out, d, wrapped("stack = [ ", v.as_str(), " ]"));
            },
            StackMapFrame::Chop { offset_delta, .. } => {
                emit(out, d, offset_text(*offset_delta));
            },
            StackMapFrame::SameExtended { offset_delta } => {
                emit(out, d, offset_text(*offset_delta));
            },
            StackMapFrame::Append { offset_delta, locals, .. } => {
                emit(out, d, offset_text(*offset_delta));
                let v = verification_list(cp, locals, this)?;
                emit(out, d, wrapped("locals = [", v.as_str(), "]"));
            },
            StackMapFrame::Full { offset_delta, locals, stack } => {
                emit(out, d, offset_text(*offset_delta));
                let v = verification_list(cp, locals, this)?;
                emit(out, d, wrapped("locals = [", v.as_str(), "]"));
                let w = verification_list(cp, stack, this)?;
                emit(out, d, wrapped("stack = [", w.as_str(), "]"));
            },
        }
        assert(spec_lines(out@) =~= before + spec_frame_body(cp@, self@, *this, d)->Ok_0);
        Ok(())
    }

    /// Appends the lines of this frame at depth `depth`; `this` is the class being shown.
    pub fn javap_fmt(&self, cp: &ConstantPool, this: &u16, depth: usize, out: &mut Vec<JavapLine>) -> (r: Result<
        (),
        ClassFormatErr,
    >)
        requires
            depth < usize::MAX,
            spec_frame_listable(cp@, self@),
        ensures
            appended(r, old(out)@, final(out)@, spec_frame_lines(cp@, self@, *this, depth)),
    {
        let ghost before = spec_lines(out@);
        proof {
            reveal(spec_frame_lines);
        }
        emit(out, depth, self.head());
        let r = self.body(cp, this, depth + 1, out);
        if r.is_err() {
            return r;
        }
        assert(spec_lines(out@) =~= before + spec_frame_lines(cp@, self@, *this, depth)->Ok_0);
        Ok(())
    }
}

/// The lines of the frames of a stack map table, as a function of the frame.
pub open spec fn frame_fn(cp: Seq<SpecConstantEntry>, this: u16, d: usize) -> spec_fn(int, SpecStackMapFrame) -> SpecListing {
    |i: int, f: SpecStackMapFrame| spec_frame_lines(cp, f, this, d)
}

/// The line of a line number entry.
pub open spec fn line_number_fn(d: usize) -> spec_fn(int, LineNumberEntry) -> SpecListing {
    |i: int, e: LineNumberEntry| Ok(
        seq![(d, "line "@ + spec_decimal(e.line_number as int) + ": "@ + spec_decimal(e.start_pc as int))],
    )
}

/// The columns of a local variable's start, length and slot, each right-aligned, and two
/// spaces.
pub open spec fn spec_local_columns(start_pc: u16, length: u16, index: u16) -> Seq<char> {
    spec_pad_left(spec_decimal(start_pc as int), 6) + " "@ + spec_pad_left(spec_decimal(length as int), 8) + " "@
        + spec_pad_left(spec_decimal(index as int), 5) + "  "@
}

/// The header of a local variable table: the column names, `Name` padded to `w`, and
/// then `sep` and `Signature`.
pub open spec fn spec_local_header(w: nat, sep: Seq<char>) -> Seq<char> {
    spec_pad_left("Start"@, 6) + " "@ + spec_pad_left("Length"@, 8) + " "@ + spec_pad_left("Slot"@, 5) + "  "@
        + spec_pad_right("Name"@, w) + sep + "Signature"@
}

/// The line of a local variable whose name and type are the texts at `name_index` and
/// `type_index`, the name padded to `w` and followed by `sep`.
pub open spec fn spec_local_line(
    cp: Seq<SpecConstantEntry>,
    start_pc: u16,
    length: u16,
    index: u16,
    name_index: u16,
    type_index: u16,
    w: nat,
    sep: Seq<char>,
) -> SpecText {
    match spec_get_utf8(cp, name_index) {
        Err(e) => Err(e),
        Ok(name) => match spec_get_utf8(cp, type_index) {
            Err(e) => Err(e),
            Ok(ty) => Ok(spec_local_columns(start_pc, length, index) + spec_pad_right(name, w) + sep + ty),
        },
    }
}

/// The line of an entry of a local variable table.
pub open spec fn local_variable_fn(cp: Seq<SpecConstantEntry>, d: usize) -> spec_fn(int, LocalVariableEntry) -> SpecListing {
    |i: int, e: LocalVariableEntry| spec_line(
        d,
        spec_local_line(cp, e.start_pc, e.length, e.index, e.name_index, e.descriptor_index, 6, " "@),
    )
}

/// The line of an entry of a local variable type table.
pub open spec fn local_variable_type_fn(cp: Seq<SpecConstantEntry>, d: usize) -> spec_fn(int, LocalVariableTypeEntry) -> SpecListing {
    |i: int, e: LocalVariableTypeEntry| spec_line(
        d,
        spec_local_line(cp, e.start_pc, e.length, e.index, e.name_index, e.signature_index, 4, "   "@),
    )
}

/// Whether javap can list an attribute of a `Code` attribute: type annotations are not
/// listed, and the frames of a stack map table must be listable.
pub open spec fn spec_code_info_listable(cp: Seq<SpecConstantEntry>, a: SpecCodeAttributeInfo) -> bool {
    match a {
        SpecCodeAttributeInfo::StackMapTable(fs) => forall|i: int| 0 <= i < fs.len() ==> spec_frame_listable(cp, #[trigger] fs[i]),
        SpecCodeAttributeInfo::RuntimeVisibleTypeAnnotations => false,
        SpecCodeAttributeInfo::RuntimeInvisibleTypeAnnotations => false,
        _ => true,
    }
}

/// The lines of an attribute of a `Code` attribute at depth `d`.
pub open spec fn spec_code_info_lines(cp: Seq<SpecConstantEntry>, a: SpecCodeAttributeInfo, this: u16, d: usize) -> SpecListing {
    let d1 = (d + 1) as usize;
    match a {
        SpecCodeAttributeInfo::LineNumberTable(t) => spec_cat(
            Ok(seq![(d, "LineNumberTable:"@)]),
            spec_each(t, line_number_fn(d1)),
        ),
        SpecCodeAttributeInfo::LocalVariableTable(t) => spec_cat(
            Ok(seq![(d, "LocalVariableTable:"@), (d, spec_local_header(6, " "@))]),
            spec_each(t, local_variable_fn(cp, d)),
        ),
        SpecCodeAttributeInfo::StackMapTable(fs) => spec_cat(
            Ok(seq![(d, "StackMapTable: number_of_entries = "@ + spec_decimal(fs.len() as int))]),
            spec_each(fs, frame_fn(cp, this, d1)),
        ),
        SpecCodeAttributeInfo::LocalVariableTypeTable(t) => spec_cat(
            Ok(seq![(d, "LocalVariableTypeTable:"@), (d1, spec_local_header(4, "   "@))]),
            spec_each(t, local_variable_type_fn(cp, d1)),
        ),
        _ => Ok(seq![]),
    }
}

/// The header of a local variable table.
fn local_header(w: usize, sep: &str) -> (r: String)
    ensures
        r@ == spec_local_header(w as nat, sep@),
{
    let mut s = String::new();
    push_padded_left(&mut s, "Start", 6);
    s.append(" ");
    push_padded_left(&mut s, "Length", 8);
    s.append(" ");
    push_padded_left(&mut s, "Slot", 5);
    s.append("  ");
    push_padded_right(&mut s, "Name", w);
    s.append(sep);
    s.append("Signature");
    s
}

/// The line of a local variable.
fn local_line(
    cp: &ConstantPool,
    start_pc: u16,
    length: u16,
    index: u16,
    name_index: u16,
    type_index: u16,
    w: usize,
    sep: &str,
) -> (r: Result<String, ClassFormatErr>)
    ensures
        text_is(r, spec_local_line(cp@, start_pc, length, index, name_index, type_index, w as nat, sep@)),
{
    let name = cp.get_utf8(&name_index)?;
    let ty = cp.get_utf8(&type_index)?;
    let mut s = String::new();
    push_padded_left(&mut s, decimal(start_pc as i64).as_str(), 6);
    s.append(" ");
    push_padded_left(&mut s, decimal(length as i64).as_str(), 8);
    s.append(" ");
    push_padded_left(&mut s, decimal(index as i64).as_str(), 5);
    s.append("  ");
    push_padded_right(&mut s, name, w);
    s.append(sep);
    s.append(ty);
    Ok(s)
}

fn line_number_lines(t: &Vec<LineNumberEntry>, d: usize, out: &mut Vec<JavapLine>)
    ensures
        spec_each(t@, line_number_fn(d)) matches Ok(ls) && spec_lines(final(out)@) == spec_lines(old(out)@) + ls,
{
    let ghost f = line_number_fn(d);
    let ghost start = spec_lines(out@);
    let ghost mut ls: Seq<(usize, Seq<char>)> = seq![];
    let mut i: usize = 0;
    while i < t.len()
        invariant
            i <= t@.len(),
            f == line_number_fn(d),
            spec_each(t@.take(i as int), f) == SpecListing::Ok(ls),
            spec_lines(out@) == start + ls,
        decreases t@.len() - i,
    {
        proof {
            lemma_each_step(t@, f, i as int);
        }
        let e = t[i];
        let mut s = number_text("line ", e.line_number as i64, ": ");
        push_decimal(&mut s, e.start_pc as i64);
        emit(out, d, s);
        proof {
            ls = ls + seq![(d, "line "@ + spec_decimal(e.line_number as int) + ": "@ + spec_decimal(e.start_pc as int))];
            assert(spec_lines(out@) =~= start + ls);
        }
        i = i + 1;
    }
    proof {
        lemma_each_all(t@, f);
    }
}

fn local_variable_lines(cp: &ConstantPool, t: &Vec<LocalVariableEntry>, d: usize, out: &mut Vec<JavapLine>) -> (r: Result<
    (),
    ClassFormatErr,
>)
    ensures
        appended(r, old(out)@, final(out)@, spec_each(t@, local_variable_fn(cp@, d))),
{
    let ghost f = local_variable_fn(cp@, d);
    let ghost start = spec_lines(out@);
    let ghost mut ls: Seq<(usize, Seq<char>)> = seq![];
    let mut i: usize = 0;
    while i < t.len()
        invariant
            i <= t@.len(),
            f == local_variable_fn(cp@, d),
            spec_each(t@.take(i as int), f) == SpecListing::Ok(ls),
            spec_lines(out@) == start + ls,
            start == spec_lines(old(out)@),
        decreases t@.len() - i,
    {
        proof {
            lemma_each_step(t@, f, i as int);
        }
        let e = t[i];
        match local_line(cp, e.start_pc, e.length, e.index, e.name_index, e.descriptor_index, 6, " ") {
            Err(x) => {
                proof {
                    lemma_each_err(t@, f, i + 1);
                }
                return Err(x);
            },
            Ok(s) => {
                let ghost sv = s@;
                emit(out, d, s);
                proof {
                    ls = ls + seq![(d, sv)];
                    assert(spec_lines(out@) =~= start + ls);
                }
            },
        }
        i = i + 1;
    }
    proof {
        lemma_each_all(t@, f);
    }
    Ok(())
}

fn local_variable_type_lines(cp: &ConstantPool, t: &Vec<LocalVariableTypeEntry>, d: usize, out: &mut Vec<JavapLine>) -> (r: Result<
    (),
    ClassFormatErr,
>)
    ensures
        appended(r, old(out)@, final(out)@, spec_each(t@, local_variable_type_fn(cp@, d))),
{
    let ghost f = local_variable_type_fn(cp@, d);
    let ghost start = spec_lines(out@);
    let ghost mut ls: Seq<(usize, Seq<char>)> = seq![];
    let mut i: usize = 0;
    while i < t.len()
        invariant
            i <= t@.len(),
            f == local_variable_type_fn(cp@, d),
            spec_each(t@.take(i as int), f) == SpecListing::Ok(ls),
            spec_lines(out@) == start + ls,
            start == spec_lines(old(out)@),
        decreases t@.len() - i,
    {
        proof {
            lemma_each_step(t@, f, i as int);
        }
        let e = t[i];
        match local_line(cp, e.start_pc, e.length, e.index, e.name_index, e.signature_index, 4, "   ") {
            Err(x) => {
                proof {
                    lemma_each_err(t@, f, i + 1);
                }
                return Err(x);
            },
            Ok(s) => {
                let ghost sv = s@;
                emit(out, d, s);
                proof {
                    ls = ls + seq![(d, sv)];
                    assert(spec_lines(out@) =~= start + ls);
                }
            },
        }
        i = i + 1;
    }
    proof {
        lemma_each_all(t@, f);
    }
    Ok(())
}

fn frame_lines(cp: &ConstantPool, fs: &Vec<StackMapFrame>, this: &u16, d: usize, out: &mut Vec<JavapLine>) -> (r: Result<
    (),
    ClassFormatErr,
>)
    requires
        d < usize::MAX,
        forall|i: int| 0 <= i < fs@.len() ==> spec_frame_listable(cp@, #[trigger] views(fs@)[i]),
    ensures
        appended(r, old(out)@, final(out)@, spec_each(views(fs@), frame_fn(cp@, *this, d))),
{
    let ghost f = frame_fn(cp@, *this, d);
    let ghost vs = views(fs@);
    let ghost start = spec_lines(out@);
    let ghost mut ls: Seq<(usize, Seq<char>)> = seq![];
    let mut i: usize = 0;
    while i < fs.len()
        invariant
            i <= fs@.len(),
            d < usize::MAX,
            vs == views(fs@),
            f == frame_fn(cp@, *this, d),
            forall|i: int| 0 <= i < fs@.len() ==> spec_frame_listable(cp@, #[trigger] views(fs@)[i]),
            spec_each(vs.take(i as int), f) == SpecListing::Ok(ls),
            spec_lines(out@) == start + ls,
            start == spec_lines(old(out)@),
        decreases fs@.len() - i,
    {
        proof {
            lemma_each_step(vs, f, i as int);
        }
        assert(vs[i as int] == fs@[i as int]@);
        match fs[i].javap_fmt(cp, this, d, out) {
            Err(x) => {
                proof {
                    lemma_each_err(vs, f, i + 1);
                }
                return Err(x);
            },
            Ok(()) => {
                proof {
                    ls = ls + spec_frame_lines(cp@, vs[i as int], *this, d)->Ok_0;
                    assert(spec_lines(out@) =~= start + ls);
                }
            },
        }
        i = i + 1;
    }
    proof {
        lemma_each_all(vs, f);
    }
    Ok(())
}

impl CodeAttributeInfo {
    /// Appends the lines of this attribute at depth `depth`; `this` is the class being
    /// shown.
    #[verifier::spinoff_prover]
    #[verifier::rlimit(30)]
    pub fn javap_fmt(&self, cp: &ConstantPool, this: &u16, depth: usize, out: &mut Vec<JavapLine>) -> (r: Result<
        (),
        ClassFormatErr,
    >)
        requires
            depth + 2 <= usize::MAX,
            spec_code_info_listable(cp@, self@),
        ensures
            appended(r, old(out)@, final(out)@, spec_code_info_lines(cp@, self@, *this, depth)),
    {
        let d1 = depth + 1;
        let ghost before = spec_lines(out@);
        match self {
            CodeAttributeInfo::LineNumberTable(t) => {
                emit(out, depth, "LineNumberTable:".to_string());
                line_number_lines(t, d1, out);
                assert(spec_lines(out@) =~= before + spec_code_info_lines(cp@, self@, *this, depth)->Ok_0);
            },
            CodeAttributeInfo::LocalVariableTable(t) => {
                emit(out, depth, "LocalVariableTable:".to_string());
                emit(out, depth, local_header(6, " "));
                let r = local_variable_lines(cp, t, depth, out);
                if r.is_err() {
                    return r;
                }
                assert(spec_lines(out@) =~= before + spec_code_info_lines(cp@, self@, *this, depth)->Ok_0);
            },
            CodeAttributeInfo::StackMapTable(fs) => {
                let mut head = "StackMapTable: number_of_entries = ".to_string();
                push_digits(&mut head, fs.len() as u64);
                emit(out, depth, head);
                let r = frame_lines(cp, fs, this, d1, out);
                if r.is_err() {
                    return r;
                }
                assert(spec_lines(out@) =~= before + spec_code_info_lines(cp@, self@, *this, depth)->Ok_0);
            },
            CodeAttributeInfo::LocalVariableTypeTable(t) => {
                emit(out, depth, "LocalVariableTypeTable:".to_string());
                emit(out, d1, local_header(4, "   "));
                let r = local_variable_type_lines(cp, t, d1, out);
                if r.is_err() {
                    return r;
                }
                assert(spec_lines(out@) =~= before + spec_code_info_lines(cp@, self@, *this, depth)->Ok_0);
            },
            _ => {},
        }
        Ok(())
    }
}

/// The instructions of `code` from `pc` to its end, each with its position; `None` where
/// one of them cannot be decoded, or takes more bytes than a `u16` counts.
#[verifier::opaque]
pub open spec fn spec_decode_all(code: Seq<u8>, pc: int) -> Option<Seq<(int, SpecInstruction)>>
    decreases code.len() - pc,
{
    if pc < 0 || pc >= code.len() {
        Some(seq![])
    } else {
        match spec_decode(code, pc) {
            Err(_) => None,
            Ok((i, end)) => if end <= pc || end > code.len() || spec_encoded_len(i) > u16::MAX {
                None
            } else {
                match spec_decode_all(code, end) {
                    None => None,
                    Some(rest) => Some(seq![(pc, i)] + rest),
                }
            },
        }
    }
}

/// One step of [`spec_decode_all`]: the instruction at `pc`, then those after it.
pub proof fn lemma_decode_all_step(code: Seq<u8>, pc: int)
    requires
        0 <= pc < code.len(),
        spec_decode_all(code, pc) is Some,
    ensures
        spec_decode(code, pc) matches Ok((i, end)) && {
            &&& pc < end <= code.len()
            &&& end - pc <= u16::MAX
            &&& spec_byte_size(i) == end - pc
            &&& spec_decode_all(code, end) is Some
            &&& spec_decode_all(code, pc)->Some_0 == seq![(pc, i)] + spec_decode_all(code, end)->Some_0
        },
{
    reveal(spec_decode_all);
    lemma_decode_length(code, pc);
}

/// [`spec_decode_all`] at the end of the code: nothing.
pub proof fn lemma_decode_all_end(code: Seq<u8>, pc: int)
    requires
        pc >= code.len(),
    ensures
        spec_decode_all(code, pc) == Some(Seq::<(int, SpecInstruction)>::empty()),
{
    reveal(spec_decode_all);
}

/// The line of an instruction in a code listing: its position right-aligned in four
/// columns, then its text padded to 24 columns.
pub open spec fn instruction_line_fn(
    cp: Seq<SpecConstantEntry>,
    ft: Seq<Option<Seq<char>>>,
    this: u16,
    d: usize,
) -> spec_fn(int, (int, SpecInstruction)) -> SpecListing {
    |k: int, pi: (int, SpecInstruction)|
        spec_line(
            d,
            match spec_listing_comment(cp, ft, pi.1, this) {
                Err(e) => Err(e),
                Ok(c) => Ok(
                    spec_pad_left(spec_decimal(pi.0), 4) + ": "@ + spec_pad_right(spec_instruction_text(pi.1, pi.0 as i32, c), 24),
                ),
            },
        )
}

/// The line of an entry of an exception table: its range and handler right-aligned, and
/// the class it catches, or `any`.
pub open spec fn exception_fn(cp: Seq<SpecConstantEntry>, d: usize) -> spec_fn(int, ExceptionTableEntry) -> SpecListing {
    |k: int, e: ExceptionTableEntry|
        spec_line(
            d,
            match (if e.catch_type == 0 {
                Ok("any"@)
            } else {
                spec_get_class_name(cp, e.catch_type)
            }) {
                Err(x) => Err(x),
                Ok(c) => Ok(
                    spec_pad_left(spec_decimal(e.start_pc as int), 6) + " "@ + spec_pad_left(spec_decimal(e.end_pc as int), 8)
                        + " "@ + spec_pad_left(spec_decimal(e.handler_pc as int), 5) + "  "@ + word(c != "any"@, "Class "@)
                        + c,
                ),
            },
        )
}

/// The lines of an attribute of a `Code` attribute, as a function of itself.
pub open spec fn code_info_fn(cp: Seq<SpecConstantEntry>, this: u16, d: usize) -> spec_fn(int, SpecCodeAttributeInfo) -> SpecListing {
    |k: int, a: SpecCodeAttributeInfo| spec_code_info_lines(cp, a, this, d)
}

/// Whether javap can list a `Code` attribute: its code decodes to its end, is no longer
/// than a `u16` counts, and shows each instruction's operand and comment, and its
/// attributes are listable.
pub open spec fn spec_code_listable(cp: Seq<SpecConstantEntry>, ft: Seq<Option<Seq<char>>>, c: SpecCodeAttribute) -> bool {
    &&& c.code.len() <= u16::MAX
    &&& spec_decode_all(c.code, 0) matches Some(insts) && forall|k: int|
        0 <= k < insts.len() ==> spec_value_fits((#[trigger] insts[k]).1, insts[k].0 as i32) && spec_comment_listable(
            cp,
            ft,
            insts[k].1,
        )
    &&& forall|k: int| 0 <= k < c.attributes.len() ==> spec_code_info_listable(cp, #[trigger] c.attributes[k])
}

/// The header of an exception table.
pub open spec fn spec_exception_header() -> Seq<char> {
    spec_pad_left("from"@, 6) + " "@ + spec_pad_left("to"@, 8) + " "@ + spec_pad_left("target"@, 5) + " type"@
}

/// The lines of a `Code` attribute at depth `d` for a method with `param_count`
/// parameters: `Code: `, then one level deeper its sizes, its instructions, its exception
/// table if it has entries, and its attributes.
pub open spec fn spec_code_lines(
    cp: Seq<SpecConstantEntry>,
    ft: Seq<Option<Seq<char>>>,
    c: SpecCodeAttribute,
    param_count: nat,
    this: u16,
    is_static: bool,
    d: usize,
) -> SpecListing {
    let d1 = (d + 1) as usize;
    let d2 = (d + 2) as usize;
    spec_cat(
        spec_cat(
            spec_cat(
                Ok(
                    seq![
                        (d, "Code: "@),
                        (
                            d1,
                            "stack="@ + spec_decimal(c.max_stack as int) + ", locals="@ + spec_decimal(c.max_locals as int)
                                + ", args_size="@ + spec_decimal(param_count + if is_static {
                                0int
                            } else {
                                1int
                            }),
                        ),
                    ],
                ),
                spec_each(spec_decode_all(c.code, 0)->Some_0, instruction_line_fn(cp, ft, this, d1)),
            ),
            if c.exception_table.len() == 0 {
                Ok(seq![])
            } else {
                spec_cat(
                    Ok(seq![(d1, "Exception table:"@), (d2, spec_exception_header())]),
                    spec_each(c.exception_table, exception_fn(cp, d2)),
                )
            },
        ),
        spec_each(c.attributes, code_info_fn(cp, this, d1)),
    )
}

/// Decodes the instruction at `pc`: it and the position after it.
fn decode_step(code: &Vec<u8>, pc: usize) -> (r: (Instruction, usize))
    requires
        pc < code@.len(),
        spec_decode_all(code@, pc as int) is Some,
    ensures
        spec_decode_all(code@, r.1 as int) is Some,
        pc < r.1 <= code@.len(),
        spec_decode_all(code@, pc as int)->Some_0 == seq![(pc as int, r.0@)] + spec_decode_all(code@, r.1 as int)->Some_0,
{
    proof {
        lemma_decode_all_step(code@, pc as int);
    }
    let inst = match Instruction::new_at(code.as_slice(), pc) {
        Ok(i) => i,
        Err(_) => {
            return (Instruction::Nop, pc + 1);
        },
    };
    let size = inst.byte_size();
    let n = code.len();
    let ghost end = spec_decode(code@, pc as int)->Ok_0.1;
    assert(size == end - pc);
    assert(pc + size <= code@.len());
    let next: usize = pc + size as usize;
    (inst, next)
}

/// The line of `inst` at `pc` in a code listing.
fn instruction_line(cp: &ConstantPool, ft: &Vec<Option<String>>, inst: &Instruction, pc: usize, this: &u16) -> (r: Result<String, ClassFormatErr>)
    requires
        pc <= u16::MAX,
        spec_value_fits(inst@, pc as i32),
        spec_comment_listable(cp@, opt_views(ft@), inst@),
    ensures
        match spec_listing_comment(cp@, opt_views(ft@), inst@, *this) {
            Err(e) => r matches Err(x) && x@ == e,
            Ok(c) => r matches Ok(x) && x@ == spec_pad_left(spec_decimal(pc as int), 4) + ": "@ + spec_pad_right(
                spec_instruction_text(inst@, pc as i32, c),
                24,
            ),
        },
{
    let c = listing_comment(inst, cp, ft, this)?;
    let s = instruction_text(inst, pc as i32, c);
    let mut line = String::new();
    push_padded_left(&mut line, decimal(pc as i64).as_str(), 4);
    line.append(": ");
    push_padded_right(&mut line, s.as_str(), 24);
    Ok(line)
}

/// Appends the lines of the instructions of `code`, each at depth `d`.
#[verifier::spinoff_prover]
#[verifier::rlimit(40)]
fn instruction_lines(cp: &ConstantPool, ft: &Vec<Option<String>>, code: &Vec<u8>, this: &u16, d: usize, out: &mut Vec<JavapLine>) -> (r: Result<
    (),
    ClassFormatErr,
>)
    requires
        code@.len() <= u16::MAX,
        spec_decode_all(code@, 0) matches Some(insts) && forall|k: int|
            0 <= k < insts.len() ==> spec_value_fits((#[trigger] insts[k]).1, insts[k].0 as i32) && spec_comment_listable(
                cp@,
                opt_views(ft@),
                insts[k].1,
            ),
    ensures
        appended(
            r,
            old(out)@,
            final(out)@,
            spec_each(spec_decode_all(code@, 0)->Some_0, instruction_line_fn(cp@, opt_views(ft@), *this, d)),
        ),
{
    let ghost full = spec_decode_all(code@, 0)->Some_0;
    let ghost f = instruction_line_fn(cp@, opt_views(ft@), *this, d);
    let ghost start = spec_lines(out@);
    let ghost mut ls: Seq<(usize, Seq<char>)> = seq![];
    let ghost mut done: Seq<(int, SpecInstruction)> = seq![];
    let mut pc: usize = 0;
    while pc < code.len()
        invariant
            pc <= code@.len(),
            code@.len() <= u16::MAX,
            spec_decode_all(code@, pc as int) is Some,
            full == spec_decode_all(code@, 0)->Some_0,
            full == done + spec_decode_all(code@, pc as int)->Some_0,
            forall|k: int|
                0 <= k < full.len() ==> spec_value_fits((#[trigger] full[k]).1, full[k].0 as i32) && spec_comment_listable(
                    cp@,
                    opt_views(ft@),
                    full[k].1,
                ),
            f == instruction_line_fn(cp@, opt_views(ft@), *this, d),
            spec_each(done, f) == SpecListing::Ok(ls),
            spec_lines(out@) == start + ls,
            start == spec_lines(old(out)@),
        decreases code@.len() - pc,
    {
        let ghost rest = spec_decode_all(code@, pc as int)->Some_0;
        let ghost k = done.len() as int;
        let (inst, next) = decode_step(code, pc);
        proof {
            assert(rest[0] == (pc as int, inst@));
            assert(full[k] == rest[0]);
            assert((pc as int) as i32 == pc as i32);
            assert(full.take(k + 1) =~= done.push(rest[0]));
            assert(full.take(k) =~= done);
            lemma_each_step(full, f, k);
        }
        match instruction_line(cp, ft, &inst, pc, this) {
            Err(x) => {
                proof {
                    assert((f)(k, full[k]) == SpecListing::Err(x@));
                    assert(spec_each(full.take(k + 1), f) is Err);
                    lemma_each_err(full, f, k + 1);
                }
                return Err(x);
            },
            Ok(line) => {
                let ghost lv = line@;
                emit(out, d, line);
                proof {
                    ls = ls + seq![(d, lv)];
                    assert(spec_lines(out@) =~= start + ls);
                }
            },
        }
        proof {
            done = done.push(rest[0]);
            assert(full =~= done + spec_decode_all(code@, next as int)->Some_0);
        }
        pc = next;
    }
    proof {
        lemma_decode_all_end(code@, pc as int);
        assert(done =~= full);
    }
    Ok(())
}

/// Appends the lines of the entries of an exception table, each at depth `d`.
fn exception_lines(cp: &ConstantPool, table: &Vec<ExceptionTableEntry>, d: usize, out: &mut Vec<JavapLine>) -> (r: Result<
    (),
    ClassFormatErr,
>)
    ensures
        appended(r, old(out)@, final(out)@, spec_each(table@, exception_fn(cp@, d))),
{
    let ghost f = exception_fn(cp@, d);
    let ghost start = spec_lines(out@);
    let ghost mut ls: Seq<(usize, Seq<char>)> = seq![];
    let mut i: usize = 0;
    while i < table.len()
        invariant
            i <= table@.len(),
            f == exception_fn(cp@, d),
            spec_each(table@.take(i as int), f) == SpecListing::Ok(ls),
            spec_lines(out@) == start + ls,
            start == spec_lines(old(out)@),
        decreases table@.len() - i,
    {
        proof {
            lemma_each_step(table@, f, i as int);
        }
        let e = table[i];
        let catch_type: &str = if e.catch_type == 0 {
            "any"
        } else {
            match cp.get_class_name(&e.catch_type) {
                Err(x) => {
                    proof {
                        lemma_each_err(table@, f, i + 1);
                    }
                    return Err(x);
                },
                Ok(c) => c,
            }
        };
        let mut s = String::new();
        push_padded_left(&mut s, decimal(e.start_pc as i64).as_str(), 6);
        s.append(" ");
        push_padded_left(&mut s, decimal(e.end_pc as i64).as_str(), 8);
        s.append(" ");
        push_padded_left(&mut s, decimal(e.handler_pc as i64).as_str(), 5);
        s.append("  ");
        crate::javap_fmt::add_word(&mut s, !crate::attribute::kind::str_eq(catch_type, "any"), "Class ");
        s.append(catch_type);
        let ghost sv = s@;
        emit(out, d, s);
        proof {
            ls = ls + seq![(d, sv)];
            assert(spec_lines(out@) =~= start + ls);
        }
        i = i + 1;
    }
    proof {
        lemma_each_all(table@, f);
    }
    Ok(())
}

/// Appends the lines of the attributes of a `Code` attribute, each at depth `d`.
fn code_info_lines(cp: &ConstantPool, attrs: &Vec<CodeAttributeInfo>, this: &u16, d: usize, out: &mut Vec<JavapLine>) -> (r: Result<
    (),
    ClassFormatErr,
>)
    requires
        d + 2 <= usize::MAX,
        forall|k: int| 0 <= k < attrs@.len() ==> spec_code_info_listable(cp@, #[trigger] views(attrs@)[k]),
    ensures
        appended(r, old(out)@, final(out)@, spec_each(views(attrs@), code_info_fn(cp@, *this, d))),
{
    let ghost f = code_info_fn(cp@, *this, d);
    let ghost vs = views(attrs@);
    let ghost start = spec_lines(out@);
    let ghost mut ls: Seq<(usize, Seq<char>)> = seq![];
    let mut i: usize = 0;
    while i < attrs.len()
        invariant
            i <= attrs@.len(),
            d + 2 <= usize::MAX,
            vs == views(attrs@),
            f == code_info_fn(cp@, *this, d),
            forall|k: int| 0 <= k < attrs@.len() ==> spec_code_info_listable(cp@, #[trigger] views(attrs@)[k]),
            spec_each(vs.take(i as int), f) == SpecListing::Ok(ls),
            spec_lines(out@) == start + ls,
            start == spec_lines(old(out)@),
        decreases attrs@.len() - i,
    {
        proof {
            lemma_each_step(vs, f, i as int);
        }
        assert(vs[i as int] == attrs@[i as int]@);
        match attrs[i].javap_fmt(cp, this, d, out) {
            Err(x) => {
                proof {
                    lemma_each_err(vs, f, i + 1);
                }
                return Err(x);
            },
            Ok(()) => {
                proof {
                    ls = ls + spec_code_info_lines(cp@, vs[i as int], *this, d)->Ok_0;
                    assert(spec_lines(out@) =~= start + ls);
                }
            },
        }
        i = i + 1;
    }
    proof {
        lemma_each_all(vs, f);
    }
    Ok(())
}

impl CodeAttribute {
    /// Appends the lines of this attribute at depth `depth` for a method with
    /// `param_count` parameters, static or not; `this` is the class being shown.
    #[verifier::spinoff_prover]
    #[verifier::rlimit(40)]
    pub fn javap_fmt(
        &self,
        cp: &ConstantPool,
        ft: &Vec<Option<String>>,
        param_count: usize,
        this: &u16,
        is_static: bool,
        depth: usize,
        out: &mut Vec<JavapLine>,
    ) -> (r: Result<(), ClassFormatErr>)
        requires
            depth + 4 <= usize::MAX,
            param_count < usize::MAX,
            spec_code_listable(cp@, opt_views(ft@), self@),
        ensures
            appended(
                r,
                old(out)@,
                final(out)@,
                spec_code_lines(cp@, opt_views(ft@), self@, param_count as nat, *this, is_static, depth),
            ),
    {
        let ghost before = spec_lines(out@);
        let d1 = depth + 1;
        let d2 = depth + 2;
        emit(out, depth, "Code: ".to_string());
        let mut sizes = "stack=".to_string();
        push_decimal(&mut sizes, self.max_stack as i64);
        sizes.append(", locals=");
        push_decimal(&mut sizes, self.max_locals as i64);
        sizes.append(", args_size=");
        let args: usize = param_count + if is_static {
            0
        } else {
            1
        };
        push_digits(&mut sizes, args as u64);
        emit(out, d1, sizes);
        let r = instruction_lines(cp, ft, &self.code, this, d1, out);
        if r.is_err() {
            return r;
        }
        if self.exception_table.len() != 0 {
            emit(out, d1, "Exception table:".to_string());
            let mut head = String::new();
            push_padded_left(&mut head, "from", 6);
            head.append(" ");
            push_padded_left(&mut head, "to", 8);
            head.append(" ");
            push_padded_left(&mut head, "target", 5);
            head.append(" type");
            emit(out, d2, head);
            let r = exception_lines(cp, &self.exception_table, d2, out);
            if r.is_err() {
                return r;
            }
        }
        let r = code_info_lines(cp, &self.attributes, this, d1, out);
        if r.is_err() {
            return r;
        }
        assert(spec_lines(out@) =~= before + spec_code_lines(cp@, opt_views(ft@), self@, param_count as nat, *this, is_static, depth)->Ok_0);
        Ok(())
    }
}


/// A stack map frame read at `p` is listed with the frame type byte it was read from:
/// its first line starts with `frame_type = ` and the decimal value of that byte.
pub proof fn lemma_frame_head_shows_its_type(d: Seq<u8>, p: int)
    ensures
        spec_read_frame(d, p) matches Ok((f, _)) ==> ("frame_type = "@ + spec_decimal(d[p] as int)).is_prefix_of(
            spec_frame_head(f),
        ),
{
    if let Ok((f, _)) = spec_read_frame(d, p) {
        let t = d[p];
        let w = "frame_type = "@ + spec_decimal(t as int);
        reveal_with_fuel(spec_digits, 4);
        match f {
            SpecStackMapFrame::SameLocals1StackItemExtended { .. } => {
                reveal_strlit("247 /* same_locals_1_stack_item_frame_extended */");
                assert(spec_decimal(247) =~= seq!['2', '4', '7']);
            },
            SpecStackMapFrame::SameExtended { .. } => {
                reveal_strlit("251 /* same_frame_extended */");
                assert(spec_decimal(251) =~= seq!['2', '5', '1']);
            },
            SpecStackMapFrame::Full { .. } => {
                reveal_strlit("255 /* full_frame */");
                assert(spec_decimal(255) =~= seq!['2', '5', '5']);
            },
            _ => {},
        }
        assert(spec_frame_head(f).subrange(0, w.len() as int) =~= w);
    }
}


/// A line number entry read from `d` at `p` is listed as `line `, the line number from its
/// third and fourth bytes, `: ` and the start pc from its first two.
pub proof fn lemma_line_number_listing(d: Seq<u8>, p: int, depth: usize, i: int)
    ensures
        line_number_reader()(d, p) matches Ok((e, _)) ==> line_number_fn(depth)(i, e) == Ok::<
            Seq<(usize, Seq<char>)>,
            crate::error::SpecClassFormatErr,
        >(
            seq![
                (
                    depth,
                    "line "@ + spec_decimal(be_u16(d[p + 2], d[p + 3]) as int) + ": "@ + spec_decimal(
                        be_u16(d[p], d[p + 1]) as int,
                    ),
                ),
            ],
        ),
{
}

/// A local variable entry read from `d` at `p` is listed with its start (bytes 0 and 1),
/// length (bytes 2 and 3) and slot (bytes 8 and 9) in that order, then the name at the
/// index in bytes 4 and 5, then the descriptor at the index in bytes 6 and 7.
pub proof fn lemma_local_variable_listing(cp: Seq<SpecConstantEntry>, d: Seq<u8>, p: int, depth: usize, i: int)
    ensures
        local_variable_reader()(d, p) matches Ok((e, _)) ==> local_variable_fn(cp, depth)(i, e) == spec_line(
            depth,
            spec_local_line(
                cp,
                be_u16(d[p], d[p + 1]),
                be_u16(d[p + 2], d[p + 3]),
                be_u16(d[p + 8], d[p + 9]),
                be_u16(d[p + 4], d[p + 5]),
                be_u16(d[p + 6], d[p + 7]),
                6,
                " "@,
            ),
        ),
{
}

/// A local variable line starts with the start, the length and the slot, in that order,
/// each right-aligned.
pub proof fn lemma_local_line_columns(
    cp: Seq<SpecConstantEntry>,
    start: u16,
    length: u16,
    slot: u16,
    name: u16,
    ty: u16,
    w: nat,
    sep: Seq<char>,
)
    ensures
        spec_local_line(cp, start, length, slot, name, ty, w, sep) matches Ok(t) ==> (spec_pad_left(
            spec_decimal(start as int),
            6,
        ) + " "@ + spec_pad_left(spec_decimal(length as int), 8) + " "@ + spec_pad_left(spec_decimal(slot as int), 5))
            .is_prefix_of(t),
{
    if let Ok(t) = spec_local_line(cp, start, length, slot, name, ty, w, sep) {
        let c = spec_pad_left(spec_decimal(start as int), 6) + " "@ + spec_pad_left(spec_decimal(length as int), 8) + " "@
            + spec_pad_left(spec_decimal(slot as int), 5);
        assert(t.subrange(0, c.len() as int) =~= c);
    }
}

/// An exception table entry read from `d` at `p` is listed with the start pc (bytes 0
/// and 1), end pc (bytes 2 and 3) and handler pc (bytes 4 and 5) in that order; a catch
/// type of 0 (bytes 6 and 7) is listed as `any`.
pub proof fn lemma_exception_listing(cp: Seq<SpecConstantEntry>, d: Seq<u8>, p: int, depth: usize, i: int)
    ensures
        exception_reader()(d, p) matches Ok((e, _)) ==> (exception_fn(cp, depth)(i, e) matches Ok(lines) ==> {
            &&& lines.len() == 1
            &&& (spec_pad_left(spec_decimal(be_u16(d[p], d[p + 1]) as int), 6) + " "@ + spec_pad_left(
                spec_decimal(be_u16(d[p + 2], d[p + 3]) as int),
                8,
            ) + " "@ + spec_pad_left(spec_decimal(be_u16(d[p + 4], d[p + 5]) as int), 5)).is_prefix_of(lines[0].1)
        }),
        exception_reader()(d, p) matches Ok((e, _)) ==> (be_u16(d[p + 6], d[p + 7]) == 0 ==> exception_fn(cp, depth)(i, e)
            is Ok),
{
    if let Ok((e, _)) = exception_reader()(d, p) {
        if let Ok(lines) = exception_fn(cp, depth)(i, e) {
            let t = lines[0].1;
            let c = spec_pad_left(spec_decimal(e.start_pc as int), 6) + " "@ + spec_pad_left(spec_decimal(e.end_pc as int), 8)
                + " "@ + spec_pad_left(spec_decimal(e.handler_pc as int), 5);
            assert(t.subrange(0, c.len() as int) =~= c);
        }
    }
}


/// The instructions of a code listing cover the code from `pc` to its end without gap
/// or overlap: the first stands at `pc`, each is what decoding gives at its own position,
/// the next starts where it ends, and the last ends at the end of the code.
#[verifier::spinoff_prover]
#[verifier::rlimit(100)]
pub proof fn lemma_decode_all_covers(code: Seq<u8>, pc: int)
    requires
        0 <= pc,
    ensures
        spec_decode_all(code, pc) matches Some(s) ==> {
            &&& (pc < code.len() ==> s.len() > 0 && s[0].0 == pc)
            &&& forall|k: int| 0 <= k < s.len() ==> spec_decode(code, #[trigger] s[k].0) == Ok::<
                (SpecInstruction, int),
                crate::bytecode::instruction::SpecDecodeError,
            >((s[k].1, s[k].0 + spec_byte_size(s[k].1)))
            &&& forall|k: int| 0 <= k < s.len() - 1 ==> #[trigger] s[k + 1].0 == s[k].0 + spec_byte_size(s[k].1)
            &&& s.len() > 0 ==> s[s.len() - 1].0 + spec_byte_size(s[s.len() - 1].1) == code.len()
        },
    decreases code.len() - pc,
{
    if spec_decode_all(code, pc) is Some {
        if pc >= code.len() {
            lemma_decode_all_end(code, pc);
        } else {
            lemma_decode_all_step(code, pc);
            let (i, end) = spec_decode(code, pc)->Ok_0;
            lemma_decode_all_covers(code, end);
            let s = spec_decode_all(code, pc)->Some_0;
            let rest = spec_decode_all(code, end)->Some_0;
            assert(s == seq![(pc, i)] + rest);
            if end >= code.len() {
                lemma_decode_all_end(code, end);
                assert(rest.len() == 0);
                assert(end == code.len());
            } else {
                assert(rest.len() > 0);
                assert(s[s.len() - 1] == rest[rest.len() - 1]);
            }
            assert forall|k: int| 0 <= k < s.len() implies spec_decode(code, #[trigger] s[k].0) == Ok::<
                (SpecInstruction, int),
                crate::bytecode::instruction::SpecDecodeError,
            >((s[k].1, s[k].0 + spec_byte_size(s[k].1))) by {
                if k > 0 {
                    assert(s[k] == rest[k - 1]);
                }
            }
            assert forall|k: int| 0 <= k < s.len() - 1 implies #[trigger] s[k + 1].0 == s[k].0 + spec_byte_size(s[k].1) by {
                assert(s[k + 1] == rest[k]);
                if k > 0 {
                    assert(s[k] == rest[k - 1]);
                    assert(rest[(k - 1) + 1].0 == rest[k - 1].0 + spec_byte_size(rest[k - 1].1));
                } else {
                    assert(end < code.len());
                    assert(rest[0].0 == end);
                }
            }
        }
    }
}

} // verus!
