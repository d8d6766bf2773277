//! The JSON text of a report loses nothing: two byte sequences with the same
//! text are the same.

use vstd::prelude::*;
use vstd::string::*;
use crate::tdx::report::{
    decimal,
    decimal_digit,
    decimal_list,
    json_array,
    json_member,
    json_object,
    members_text,
    report_mac_struct_json,
    report_mac_struct_members,
    td_info_json,
    td_info_members,
    tdreport_json,
    tee_tcb_info_json,
    tee_tcb_info_members,
    TdReportV15,
};

verus! {

/// Whether `c` is a digit of base 10.
pub open spec fn is_digit(c: char) -> bool {
    exists|d: int| 0 <= d < 10 && c == #[trigger] decimal_digit(d)
}

/// Whether no character of `text` is `c`.
pub open spec fn free_of(text: Seq<char>, c: char) -> bool {
    forall|i: int| 0 <= i < text.len() ==> text[i] != c
}

/// Different numbers below ten have different digits, and no digit is a
/// comma or a bracket.
pub proof fn lemma_digits(d: int, e: int)
    requires
        0 <= d < 10,
        0 <= e < 10,
    ensures
        decimal_digit(d) == decimal_digit(e) ==> d == e,
        decimal_digit(d) != ',',
        decimal_digit(d) != ']',
        decimal_digit(d) != '[',
{
}

/// A byte's number has one to three digits.
pub proof fn lemma_decimal_shape(byte: u8)
    ensures
        1 <= decimal(byte).len() <= 3,
        free_of(decimal(byte), ','),
        free_of(decimal(byte), ']'),
{
    assert forall|i: int| 0 <= i < decimal(byte).len() implies decimal(byte)[i] != ','
        && decimal(byte)[i] != ']' by {
        lemma_digits(byte as int % 10, 0);
        lemma_digits(byte as int / 10 % 10, 0);
        lemma_digits(byte as int / 100, 0);
        if byte < 100 {
            lemma_digits(byte as int / 10, 0);
        }
    }
}

/// Two bytes with the same number are the same.
pub proof fn lemma_decimal_determines(a: u8, b: u8)
    requires
        decimal(a) == decimal(b),
    ensures
        a == b,
{
    let x = decimal(a);
    let y = decimal(b);
    assert(x.len() == (if a < 10 {
        1nat
    } else if a < 100 {
        2nat
    } else {
        3nat
    }));
    assert(y.len() == (if b < 10 {
        1nat
    } else if b < 100 {
        2nat
    } else {
        3nat
    }));
    if a < 10 {
        assert(x[0] == decimal_digit(a as int));
        assert(y[0] == decimal_digit(b as int));
        lemma_digits(a as int, b as int);
    } else if a < 100 {
        assert(x[0] == decimal_digit(a as int / 10));
        assert(y[0] == decimal_digit(b as int / 10));
        assert(x[1] == decimal_digit(a as int % 10));
        assert(y[1] == decimal_digit(b as int % 10));
        lemma_digits(a as int / 10, b as int / 10);
        lemma_digits(a as int % 10, b as int % 10);
    } else {
        assert(x[0] == decimal_digit(a as int / 100));
        assert(y[0] == decimal_digit(b as int / 100));
        assert(x[1] == decimal_digit(a as int / 10 % 10));
        assert(y[1] == decimal_digit(b as int / 10 % 10));
        assert(x[2] == decimal_digit(a as int % 10));
        assert(y[2] == decimal_digit(b as int % 10));
        lemma_digits(a as int / 100, b as int / 100);
        lemma_digits(a as int / 10 % 10, b as int / 10 % 10);
        lemma_digits(a as int % 10, b as int % 10);
    }
}

/// The list of the numbers of some bytes holds no bracket, and is empty only
/// for no bytes.
pub proof fn lemma_decimal_list_shape(bytes: Seq<u8>)
    ensures
        free_of(decimal_list(bytes), ']'),
        bytes.len() > 0 ==> decimal_list(bytes).len() > 0,
        bytes.len() == 1 ==> free_of(decimal_list(bytes), ','),
    decreases bytes.len(),
{
    if bytes.len() == 0 {
    } else if bytes.len() == 1 {
        lemma_decimal_shape(bytes[0]);
    } else {
        lemma_decimal_list_shape(bytes.drop_last());
        lemma_decimal_shape(bytes.last());
    }
}

/// Two sequences of bytes with the same list of numbers are the same.
pub proof fn lemma_decimal_list_determines(a: Seq<u8>, b: Seq<u8>)
    requires
        decimal_list(a) == decimal_list(b),
    ensures
        a == b,
    decreases a.len(),
{
    lemma_decimal_list_shape(a);
    lemma_decimal_list_shape(b);
    let text = decimal_list(a);
    if a.len() == 0 {
        assert(b.len() == 0);
        assert(a =~= b);
    } else if a.len() == 1 {
        if b.len() >= 2 {
            let at = decimal_list(b.drop_last()).len() as int;
            assert(decimal_list(b)[at] == ',');
        }
        assert(b.len() == 1);
        lemma_decimal_determines(a[0], b[0]);
        assert(a =~= b);
    } else {
        let at = decimal_list(a.drop_last()).len() as int;
        assert(text[at] == ',');
        lemma_decimal_shape(a.last());
        assert(b.len() >= 2);
        let bt = decimal_list(b.drop_last()).len() as int;
        assert(text[bt] == ',');
        lemma_decimal_shape(b.last());
        // the last comma of the text parts it in one way only
        if at < bt {
            assert(decimal(a.last())[bt - at - 1] == text[bt]);
        }
        if bt < at {
            assert(decimal(b.last())[at - bt - 1] == text[at]);
        }
        assert(at == bt);
        assert(decimal_list(a.drop_last()) =~= text.subrange(0, at));
        assert(decimal_list(b.drop_last()) =~= text.subrange(0, at));
        assert(decimal(a.last()) =~= text.subrange(at + 1, text.len() as int));
        assert(decimal(b.last()) =~= text.subrange(at + 1, text.len() as int));
        lemma_decimal_list_determines(a.drop_last(), b.drop_last());
        lemma_decimal_determines(a.last(), b.last());
        assert(a =~= a.drop_last().push(a.last()));
        assert(b =~= b.drop_last().push(b.last()));
    }
}

/// Where two texts go on alike up to an array of bytes each, the arrays hold
/// the same bytes and what follows them is the same.
pub proof fn lemma_array_parts(
    before: Seq<char>,
    a: Seq<u8>,
    after_a: Seq<char>,
    b: Seq<u8>,
    after_b: Seq<char>,
)
    requires
        before + json_array(a) + after_a == before + json_array(b) + after_b,
    ensures
        a == b,
        after_a == after_b,
{
    lemma_decimal_list_shape(a);
    lemma_decimal_list_shape(b);
    let text = before + json_array(a) + after_a;
    let other = before + json_array(b) + after_b;
    let start = before.len() as int + 1;
    let la = decimal_list(a);
    let lb = decimal_list(b);
    let na = la.len() as int;
    let nb = lb.len() as int;
    assert(text[start + na] == ']');
    assert(other[start + nb] == ']');
    if na < nb {
        assert(other[start + na] == lb[na]);
    }
    if nb < na {
        assert(text[start + nb] == la[nb]);
    }
    assert(na == nb);
    assert(la =~= text.subrange(start, start + na));
    assert(lb =~= other.subrange(start, start + na));
    lemma_decimal_list_determines(a, b);
    let end = start + na + 1;
    assert(after_a =~= text.subrange(end, text.len() as int));
    assert(after_b =~= other.subrange(end, other.len() as int));
}

/// Whether two lists of members have the same names in the same order.
pub open spec fn same_names(a: Seq<(Seq<char>, Seq<u8>)>, b: Seq<(Seq<char>, Seq<u8>)>) -> bool {
    &&& a.len() == b.len()
    &&& forall|i: int| 0 <= i < a.len() ==> a[i].0 == b[i].0
}

/// Where two texts go on alike up to the members of an object each, and the
/// members have the same names, they have the same bytes too, and what
/// follows the members is the same.
pub proof fn lemma_members_parts(
    before: Seq<char>,
    a: Seq<(Seq<char>, Seq<u8>)>,
    after_a: Seq<char>,
    b: Seq<(Seq<char>, Seq<u8>)>,
    after_b: Seq<char>,
)
    requires
        same_names(a, b),
        before + members_text(a) + after_a == before + members_text(b) + after_b,
    ensures
        a == b,
        after_a == after_b,
    decreases a.len(),
{
    let text = before + members_text(a) + after_a;
    let other = before + members_text(b) + after_b;
    if a.len() == 0 {
        assert(after_a =~= text.subrange(before.len() as int, text.len() as int));
        assert(after_b =~= other.subrange(before.len() as int, other.len() as int));
        assert(a =~= b);
    } else {
        let name = a[0].0;
        let mark = if a.len() == 1 {
            "}"@
        } else {
            ","@
        };
        let opening = before + "\""@ + name + "\":"@;
        let rest_a = mark + members_text(a.drop_first()) + after_a;
        let rest_b = mark + members_text(b.drop_first()) + after_b;
        assert(text =~= opening + json_array(a[0].1) + rest_a);
        assert(other =~= opening + json_array(b[0].1) + rest_b);
        lemma_array_parts(opening, a[0].1, rest_a, b[0].1, rest_b);
        assert(same_names(a.drop_first(), b.drop_first()));
        lemma_members_parts(mark, a.drop_first(), after_a, b.drop_first(), after_b);
        assert(a[0] == b[0]);
        assert(a =~= seq![a[0]] + a.drop_first());
        assert(b =~= seq![b[0]] + b.drop_first());
    }
}

/// Two binary images of a `TdInfo` with the same JSON text are the same.
pub proof fn lemma_td_info_json_determines(a: Seq<u8>, b: Seq<u8>)
    requires
        a.len() == 512,
        b.len() == 512,
        td_info_json(a) == td_info_json(b),
    ensures
        a == b,
{
    assert(td_info_json(a) =~= "{"@ + members_text(td_info_members(a)) + Seq::<char>::empty());
    assert(td_info_json(b) =~= "{"@ + members_text(td_info_members(b)) + Seq::<char>::empty());
    lemma_td_info_parts("{"@, a, Seq::empty(), b, Seq::empty());
}

/// Where two texts go on alike up to the members of a `TdInfo` each, the
/// binary images are the same, and so is what follows the members.
pub proof fn lemma_td_info_parts(
    before: Seq<char>,
    a: Seq<u8>,
    after_a: Seq<char>,
    b: Seq<u8>,
    after_b: Seq<char>,
)
    requires
        a.len() == 512,
        b.len() == 512,
        before + members_text(td_info_members(a)) + after_a == before + members_text(
            td_info_members(b),
        ) + after_b,
    ensures
        a == b,
        after_a == after_b,
{
    let x = td_info_members(a);
    let y = td_info_members(b);
    assert(same_names(x, y));
    lemma_members_parts(before, x, after_a, y, after_b);
    assert forall|i: int| 0 <= i < 512 implies a[i] == b[i] by {
        if i < 8 {
            assert(x[0].1 == y[0].1);
            assert(a.subrange(0, 8)[i - 0] == b.subrange(0, 8)[i - 0]);
        } else if i < 16 {
            assert(x[1].1 == y[1].1);
            assert(a.subrange(8, 16)[i - 8] == b.subrange(8, 16)[i - 8]);
        } else if i < 64 {
            assert(x[2].1 == y[2].1);
            assert(a.subrange(16, 64)[i - 16] == b.subrange(16, 64)[i - 16]);
        } else if i < 112 {
            assert(x[3].1 == y[3].1);
            assert(a.subrange(64, 112)[i - 64] == b.subrange(64, 112)[i - 64]);
        } else if i < 160 {
            assert(x[4].1 == y[4].1);
            assert(a.subrange(112, 160)[i - 112] == b.subrange(112, 160)[i - 112]);
        } else if i < 208 {
            assert(x[5].1 == y[5].1);
            assert(a.subrange(160, 208)[i - 160] == b.subrange(160, 208)[i - 160]);
        } else if i < 256 {
            assert(x[6].1 == y[6].1);
            assert(a.subrange(208, 256)[i - 208] == b.subrange(208, 256)[i - 208]);
        } else if i < 304 {
            assert(x[7].1 == y[7].1);
            assert(a.subrange(256, 304)[i - 256] == b.subrange(256, 304)[i - 256]);
        } else if i < 352 {
            assert(x[8].1 == y[8].1);
            assert(a.subrange(304, 352)[i - 304] == b.subrange(304, 352)[i - 304]);
        } else if i < 400 {
            assert(x[9].1 == y[9].1);
            assert(a.subrange(352, 400)[i - 352] == b.subrange(352, 400)[i - 352]);
        } else if i < 448 {
            assert(x[10].1 == y[10].1);
            assert(a.subrange(400, 448)[i - 400] == b.subrange(400, 448)[i - 400]);
        } else {
            assert(x[11].1 == y[11].1);
            assert(a.subrange(448, 512)[i - 448] == b.subrange(448, 512)[i - 448]);
        }
    }
    assert(a =~= b);
}

/// Two binary images of a `ReportMacStruct` with the same JSON text are the same.
pub proof fn lemma_report_mac_struct_json_determines(a: Seq<u8>, b: Seq<u8>)
    requires
        a.len() == 256,
        b.len() == 256,
        report_mac_struct_json(a) == report_mac_struct_json(b),
    ensures
        a == b,
{
    assert(report_mac_struct_json(a) =~= "{"@ + members_text(report_mac_struct_members(a))
        + Seq::<char>::empty());
    assert(report_mac_struct_json(b) =~= "{"@ + members_text(report_mac_struct_members(b))
        + Seq::<char>::empty());
    lemma_report_mac_struct_parts("{"@, a, Seq::empty(), b, Seq::empty());
}

/// Where two texts go on alike up to the members of a `ReportMacStruct` each, the
/// binary images are the same, and so is what follows the members.
pub proof fn lemma_report_mac_struct_parts(
    before: Seq<char>,
    a: Seq<u8>,
    after_a: Seq<char>,
    b: Seq<u8>,
    after_b: Seq<char>,
)
    requires
        a.len() == 256,
        b.len() == 256,
        before + members_text(report_mac_struct_members(a)) + after_a == before + members_text(
            report_mac_struct_members(b),
        ) + after_b,
    ensures
        a == b,
        after_a == after_b,
{
    let x = report_mac_struct_members(a);
    let y = report_mac_struct_members(b);
    assert(same_names(x, y));
    lemma_members_parts(before, x, after_a, y, after_b);
    assert forall|i: int| 0 <= i < 256 implies a[i] == b[i] by {
        if i < 8 {
            assert(x[0].1 == y[0].1);
            assert(a.subrange(0, 8)[i - 0] == b.subrange(0, 8)[i - 0]);
        } else if i < 16 {
            assert(x[1].1 == y[1].1);
            assert(a.subrange(8, 16)[i - 8] == b.subrange(8, 16)[i - 8]);
        } else if i < 32 {
            assert(x[2].1 == y[2].1);
            assert(a.subrange(16, 32)[i - 16] == b.subrange(16, 32)[i - 16]);
        } else if i < 80 {
            assert(x[3].1 == y[3].1);
            assert(a.subrange(32, 80)[i - 32] == b.subrange(32, 80)[i - 32]);
        } else if i < 128 {
            assert(x[4].1 == y[4].1);
            assert(a.subrange(80, 128)[i - 80] == b.subrange(80, 128)[i - 80]);
        } else if i < 192 {
            assert(x[5].1 == y[5].1);
            assert(a.subrange(128, 192)[i - 128] == b.subrange(128, 192)[i - 128]);
        } else if i < 224 {
            assert(x[6].1 == y[6].1);
            assert(a.subrange(192, 224)[i - 192] == b.subrange(192, 224)[i - 192]);
        } else {
            assert(x[7].1 == y[7].1);
            assert(a.subrange(224, 256)[i - 224] == b.subrange(224, 256)[i - 224]);
        }
    }
    assert(a =~= b);
}

/// Two binary images of a `TeeTcbInfo` with the same JSON text are the same.
pub proof fn lemma_tee_tcb_info_json_determines(a: Seq<u8>, b: Seq<u8>)
    requires
        a.len() == 239,
        b.len() == 239,
        tee_tcb_info_json(a) == tee_tcb_info_json(b),
    ensures
        a == b,
{
    assert(tee_tcb_info_json(a) =~= "{"@ + members_text(tee_tcb_info_members(a))
        + Seq::<char>::empty());
    assert(tee_tcb_info_json(b) =~= "{"@ + members_text(tee_tcb_info_members(b))
        + Seq::<char>::empty());
    lemma_tee_tcb_info_parts("{"@, a, Seq::empty(), b, Seq::empty());
}

/// Where two texts go on alike up to the members of a `TeeTcbInfo` each, the
/// binary images are the same, and so is what follows the members.
pub proof fn lemma_tee_tcb_info_parts(
    before: Seq<char>,
    a: Seq<u8>,
    after_a: Seq<char>,
    b: Seq<u8>,
    after_b: Seq<char>,
)
    requires
        a.len() == 239,
        b.len() == 239,
        before + members_text(tee_tcb_info_members(a)) + after_a == before + members_text(
            tee_tcb_info_members(b),
        ) + after_b,
    ensures
        a == b,
        after_a == after_b,
{
    let x = tee_tcb_info_members(a);
    let y = tee_tcb_info_members(b);
    assert(same_names(x, y));
    lemma_members_parts(before, x, after_a, y, after_b);
    assert forall|i: int| 0 <= i < 239 implies a[i] == b[i] by {
        if i < 8 {
            assert(x[0].1 == y[0].1);
            assert(a.subrange(0, 8)[i - 0] == b.subrange(0, 8)[i - 0]);
        } else if i < 24 {
            assert(x[1].1 == y[1].1);
            assert(a.subrange(8, 24)[i - 8] == b.subrange(8, 24)[i - 8]);
        } else if i < 72 {
            assert(x[2].1 == y[2].1);
            assert(a.subrange(24, 72)[i - 24] == b.subrange(24, 72)[i - 24]);
        } else if i < 120 {
            assert(x[3].1 == y[3].1);
            assert(a.subrange(72, 120)[i - 72] == b.subrange(72, 120)[i - 72]);
        } else if i < 128 {
            assert(x[4].1 == y[4].1);
            assert(a.subrange(120, 128)[i - 120] == b.subrange(120, 128)[i - 120]);
        } else if i < 144 {
            assert(x[5].1 == y[5].1);
            assert(a.subrange(128, 144)[i - 128] == b.subrange(128, 144)[i - 128]);
        } else {
            assert(x[6].1 == y[6].1);
            assert(a.subrange(144, 239)[i - 144] == b.subrange(144, 239)[i - 144]);
        }
    }
    assert(a =~= b);
}

/// The text of a report from the member `td_info` on.
pub open spec fn from_td_info(image: Seq<u8>) -> Seq<char> {
    ","@ + "\"td_info\":"@ + "{"@ + members_text(td_info_members(image.subrange(512, 1024))) + "}"@
}

/// The text of a report from the member `reserved` on.
pub open spec fn from_reserved(image: Seq<u8>) -> Seq<char> {
    ","@ + "\""@ + "reserved"@ + "\":"@ + json_array(image.subrange(495, 512)) + from_td_info(
        image,
    )
}

/// The text of a report from the member `tee_tcb_info` on.
pub open spec fn from_tee_tcb_info(image: Seq<u8>) -> Seq<char> {
    ",\"tee_tcb_info\":"@ + "{"@ + members_text(
        tee_tcb_info_members(image.subrange(256, 495)),
    ) + from_reserved(image)
}

/// The text of a report is its first member followed by the text from the
/// second member on.
pub proof fn lemma_tdreport_json_parts(image: Seq<u8>)
    ensures
        tdreport_json(image) == "{\"report_mac_struct\":"@ + "{"@ + members_text(
            report_mac_struct_members(image.subrange(0, 256)),
        ) + from_tee_tcb_info(image),
{
    let mac = members_text(report_mac_struct_members(image.subrange(0, 256)));
    let tcb = members_text(tee_tcb_info_members(image.subrange(256, 495)));
    let td = members_text(td_info_members(image.subrange(512, 1024)));
    let reserved = json_array(image.subrange(495, 512));
    let t1 = "{\"report_mac_struct\":"@ + ("{"@ + mac);
    let t2 = t1 + ",\"tee_tcb_info\":"@;
    let t3 = t2 + ("{"@ + tcb);
    let t4 = t3 + ","@;
    let t5 = t4 + ("\""@ + "reserved"@ + "\":"@ + reserved);
    let t6 = t5 + ","@;
    let t7 = t6 + "\"td_info\":"@;
    let t8 = t7 + ("{"@ + td);
    let t9 = t8 + "}"@;
    assert(tdreport_json(image) == t9);
    let r8 = "{"@ + td + "}"@;
    let r7 = "\"td_info\":"@ + r8;
    let r6 = ","@ + r7;
    assert(from_td_info(image) =~= r6);
    let r5 = "\""@ + "reserved"@ + "\":"@ + reserved + r6;
    let r4 = ","@ + r5;
    assert(from_reserved(image) =~= r4);
    let r3 = "{"@ + tcb + r4;
    let r2 = ",\"tee_tcb_info\":"@ + r3;
    assert(from_tee_tcb_info(image) =~= r2);
    assert(t9 =~= t7 + r8);
    assert(t7 + r8 =~= t6 + r7);
    assert(t6 + r7 =~= t5 + r6);
    assert(t5 + r6 =~= t4 + r5);
    assert(t4 + r5 =~= t3 + r4);
    assert(t3 + r4 =~= t2 + r3);
    assert(t2 + r3 =~= t1 + r2);
    assert(t1 + r2 =~= "{\"report_mac_struct\":"@ + "{"@ + mac + r2);
}

/// Two binary images of a report with the same parts are the same.
proof fn lemma_same_parts(a: Seq<u8>, b: Seq<u8>)
    requires
        a.len() == 1024,
        b.len() == 1024,
        a.subrange(0, 256) == b.subrange(0, 256),
        a.subrange(256, 495) == b.subrange(256, 495),
        a.subrange(495, 512) == b.subrange(495, 512),
        a.subrange(512, 1024) == b.subrange(512, 1024),
    ensures
        a == b,
{
    assert forall|i: int| 0 <= i < 1024 implies a[i] == b[i] by {
        if i < 256 {
            assert(a.subrange(0, 256)[i] == a[i]);
            assert(b.subrange(0, 256)[i] == b[i]);
        } else if i < 495 {
            assert(a.subrange(256, 495)[i - 256] == a[i]);
            assert(b.subrange(256, 495)[i - 256] == b[i]);
        } else if i < 512 {
            assert(a.subrange(495, 512)[i - 495] == a[i]);
            assert(b.subrange(495, 512)[i - 495] == b[i]);
        } else {
            assert(a.subrange(512, 1024)[i - 512] == a[i]);
            assert(b.subrange(512, 1024)[i - 512] == b[i]);
        }
    }
    assert(a =~= b);
}

/// The JSON text of a report loses nothing: two binary images of a report
/// with the same text are the same.
pub proof fn lemma_tdreport_json_determines(a: Seq<u8>, b: Seq<u8>)
    requires
        a.len() == 1024,
        b.len() == 1024,
        tdreport_json(a) == tdreport_json(b),
    ensures
        a == b,
{
    lemma_tdreport_json_parts(a);
    lemma_tdreport_json_parts(b);
    lemma_report_mac_struct_parts(
        "{\"report_mac_struct\":"@ + "{"@,
        a.subrange(0, 256),
        from_tee_tcb_info(a),
        b.subrange(0, 256),
        from_tee_tcb_info(b),
    );
    lemma_tee_tcb_info_parts(
        ",\"tee_tcb_info\":"@ + "{"@,
        a.subrange(256, 495),
        from_reserved(a),
        b.subrange(256, 495),
        from_reserved(b),
    );
    lemma_array_parts(
        ","@ + "\""@ + "reserved"@ + "\":"@,
        a.subrange(495, 512),
        from_td_info(a),
        b.subrange(495, 512),
        from_td_info(b),
    );
    lemma_td_info_parts(
        ","@ + "\"td_info\":"@ + "{"@,
        a.subrange(512, 1024),
        "}"@,
        b.subrange(512, 1024),
        "}"@,
    );
    lemma_same_parts(a, b);
}

/// Two reports with the same JSON text are the same report.
pub proof fn lemma_json_determines_report(a: &TdReportV15, b: &TdReportV15)
    requires
        tdreport_json(a@) == tdreport_json(b@),
    ensures
        *a == *b,
{
    a.lemma_layout();
    b.lemma_layout();
    lemma_tdreport_json_determines(a@, b@);
    a.lemma_image_determines(b);
}

} // verus!
