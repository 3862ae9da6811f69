//! The provider's JSON wire format, written out byte by byte.
//!
//! The two plan shapes serialize to structurally different JSON bodies with
//! no discriminator field: a prompt plan's members stand at the top level,
//! while a composition plan is wrapped under a single `composition_plan`
//! key. The exact bytes of each body are pinned down by spec functions, and
//! the document structure (keys, member order, member presence) is stated
//! and proved separately over a small model of the emitted JSON objects.

use vstd::prelude::*;
use vstd::string::StringSliceAdditionalSpecFns;
use vstd::utf8::encode_utf8;

use crate::types::MusicPlan;
use crate::types::TTMCompositionPlan;
use crate::types::TTMCompositionPlanSection;
use crate::types::TTMPromptPlan;
use crate::types::TTMRequestBody;
use crate::types::TTMRequestBodyComposition;

verus! {

/// The UTF-8 bytes of a string slice. Fixed wire fragments appear through
/// this function with the same literal in specifications and in code.
pub open spec fn lit(s: &str) -> Seq<u8> {
    s.spec_bytes()
}

/// The views of a sequence of strings.
pub open spec fn views_of(xs: Seq<String>) -> Seq<Seq<char>> {
    xs.map_values(|s: String| s@)
}

/// The ASCII byte of the decimal digit `d`.
pub open spec fn digit_byte(d: nat) -> u8 {
    (48 + d) as u8
}

/// The shortest decimal representation of `n`, as ASCII bytes.
pub open spec fn dec_bytes(n: nat) -> Seq<u8>
    decreases n,
    via dec_bytes_decreases
{
    if n < 10 {
        seq![digit_byte(n)]
    } else {
        dec_bytes(n / 10) + seq![digit_byte(n % 10)]
    }
}

#[via_fn]
proof fn dec_bytes_decreases(n: nat) {
    assert(n >= 10 ==> n / 10 < n) by (nonlinear_arith);
}

/// The ASCII byte of the lower-case hexadecimal digit `d`.
pub open spec fn hex_byte(d: nat) -> u8 {
    if d < 10 {
        (48 + d) as u8
    } else {
        (87 + d) as u8
    }
}

/// How one byte of a string's UTF-8 encoding appears inside a JSON string
/// literal: quote and backslash get a backslash escape, control bytes get
/// their short escape or a `\u00XX` escape, and every other byte (including
/// the bytes of multi-byte UTF-8 sequences) passes through unchanged.
pub open spec fn escape_byte(b: u8) -> Seq<u8> {
    if b == 34 {
        seq![92u8, 34u8]
    } else if b == 92 {
        seq![92u8, 92u8]
    } else if b == 8 {
        seq![92u8, 98u8]
    } else if b == 12 {
        seq![92u8, 102u8]
    } else if b == 10 {
        seq![92u8, 110u8]
    } else if b == 13 {
        seq![92u8, 114u8]
    } else if b == 9 {
        seq![92u8, 116u8]
    } else if b < 32 {
        seq![92u8, 117u8, 48u8, 48u8, hex_byte((b / 16) as nat), hex_byte((b % 16) as nat)]
    } else {
        seq![b]
    }
}

/// `bs`, escaped byte by byte for use inside a JSON string literal.
pub open spec fn escape_bytes(bs: Seq<u8>) -> Seq<u8>
    decreases bs.len(),
{
    if bs.len() == 0 {
        seq![]
    } else {
        escape_bytes(bs.drop_last()) + escape_byte(bs.last())
    }
}

/// The JSON string literal for the characters `s`: quoted, UTF-8 encoded,
/// escaped.
pub open spec fn json_str(s: Seq<char>) -> Seq<u8> {
    lit("\"") + escape_bytes(encode_utf8(s)) + lit("\"")
}

/// Already serialized pieces joined by commas, in order.
pub open spec fn comma_join(items: Seq<Seq<u8>>) -> Seq<u8>
    decreases items.len(),
{
    if items.len() == 0 {
        seq![]
    } else if items.len() == 1 {
        items[0]
    } else {
        comma_join(items.drop_last()) + lit(",") + items.last()
    }
}

/// The JSON array holding the already serialized `items`, in order.
pub open spec fn json_arr(items: Seq<Seq<u8>>) -> Seq<u8> {
    lit("[") + comma_join(items) + lit("]")
}

/// The JSON object holding the given keys and already serialized member
/// values, in order.
pub open spec fn json_obj(fields: Seq<(Seq<char>, Seq<u8>)>) -> Seq<u8> {
    lit("{") + comma_join(
        fields.map_values(|kv: (Seq<char>, Seq<u8>)| json_str(kv.0) + lit(":") + kv.1),
    ) + lit("}")
}

/// The JSON array of string literals for `xs`, in order.
pub open spec fn json_str_arr(xs: Seq<Seq<char>>) -> Seq<u8> {
    json_arr(xs.map_values(|s: Seq<char>| json_str(s)))
}

proof fn lemma_comma_join2(a: Seq<u8>, b: Seq<u8>)
    ensures
        comma_join(seq![a, b]) == a + lit(",") + b,
{
    let s = seq![a, b];
    assert(s.drop_last() =~= seq![a]);
    assert(s.last() == b);
    assert(comma_join(seq![a]) == a);
    assert(comma_join(s) == comma_join(seq![a]) + lit(",") + b);
}



// ---------------------------------------------------------------------------
// Emitting bytes
// ---------------------------------------------------------------------------

/// Append the UTF-8 bytes of `s` to `out`.
fn push_lit(out: &mut Vec<u8>, s: &str)
    ensures
        final(out)@ == old(out)@ + lit(s),
{
    let bs = s.as_bytes_vec();
    let mut i: usize = 0;
    while i < bs.len()
        invariant
            i <= bs.len(),
            bs@ == lit(s),
            out@ == old(out)@ + bs@.take(i as int),
        decreases bs.len() - i,
    {
        out.push(bs[i]);
        proof {
            assert(bs@.take(i + 1 as int) =~= bs@.take(i as int).push(bs@[i as int]));
        }
        i = i + 1;
    }
    proof {
        assert(bs@.take(bs@.len() as int) =~= bs@);
    }
}

/// Append the shortest decimal representation of `n` to `out`.
fn push_dec(out: &mut Vec<u8>, n: u64)
    ensures
        final(out)@ == old(out)@ + dec_bytes(n as nat),
    decreases n,
{
    if n >= 10 {
        proof {
            assert(n / 10 < n) by (nonlinear_arith)
                requires
                    n >= 10,
            ;
        }
        push_dec(out, n / 10);
    }
    let d: u8 = (n % 10) as u8;
    out.push(48 + d);
    proof {
        if n < 10 {
            assert(old(out)@ + dec_bytes(n as nat) =~= out@);
        } else {
            assert(old(out)@ + dec_bytes(n as nat) =~= out@);
        }
    }
}

/// Append the escape of one byte of a string's UTF-8 encoding to `out`.
fn push_escaped_byte(out: &mut Vec<u8>, b: u8)
    ensures
        final(out)@ == old(out)@ + escape_byte(b),
{
    if b == 34 {
        out.push(92);
        out.push(34);
    } else if b == 92 {
        out.push(92);
        out.push(92);
    } else if b == 8 {
        out.push(92);
        out.push(98);
    } else if b == 12 {
        out.push(92);
        out.push(102);
    } else if b == 10 {
        out.push(92);
        out.push(110);
    } else if b == 13 {
        out.push(92);
        out.push(114);
    } else if b == 9 {
        out.push(92);
        out.push(116);
    } else if b < 32 {
        out.push(92);
        out.push(117);
        out.push(48);
        out.push(48);
        let hb: u8 = if b / 16 < 10 {
            48 + b / 16
        } else {
            87 + b / 16
        };
        let lb: u8 = if b % 16 < 10 {
            48 + b % 16
        } else {
            87 + b % 16
        };
        out.push(hb);
        out.push(lb);
    } else {
        out.push(b);
    }
    proof {
        assert(out@ =~= old(out)@ + escape_byte(b));
    }
}

/// Append the escaped UTF-8 bytes of `s` to `out`.
fn push_escaped_str(out: &mut Vec<u8>, s: &str)
    ensures
        final(out)@ == old(out)@ + escape_bytes(lit(s)),
{
    let bs = s.as_bytes_vec();
    let mut i: usize = 0;
    while i < bs.len()
        invariant
            i <= bs.len(),
            bs@ == lit(s),
            out@ == old(out)@ + escape_bytes(bs@.take(i as int)),
        decreases bs.len() - i,
    {
        push_escaped_byte(out, bs[i]);
        proof {
            assert(bs@.take(i + 1 as int).drop_last() =~= bs@.take(i as int));
            assert(bs@.take(i + 1 as int).last() == bs@[i as int]);
        }
        i = i + 1;
    }
    proof {
        assert(bs@.take(bs@.len() as int) =~= bs@);
    }
}

/// Append the JSON string literal for `s` to `out`.
fn push_json_string(out: &mut Vec<u8>, s: &str)
    ensures
        final(out)@ == old(out)@ + json_str(s@),
{
    push_lit(out, "\"");
    push_escaped_str(out, s);
    push_lit(out, "\"");
    proof {
        assert(out@ =~= old(out)@ + json_str(s@));
    }
}

/// Append the JSON array of the strings in `xs` to `out`, in order.
fn push_str_arr(out: &mut Vec<u8>, xs: &Vec<String>)
    ensures
        final(out)@ == old(out)@ + json_str_arr(views_of(xs@)),
{
    let ghost items = views_of(xs@).map_values(|s: Seq<char>| json_str(s));
    push_lit(out, "[");
    let mut i: usize = 0;
    while i < xs.len()
        invariant
            i <= xs.len(),
            items.len() == xs@.len(),
            forall|j: int| 0 <= j < xs@.len() ==> items[j] == json_str(xs@[j]@),
            out@ == old(out)@ + lit("[") + comma_join(items.take(i as int)),
        decreases xs.len() - i,
    {
        if i != 0 {
            push_lit(out, ",");
        }
        push_json_string(out, xs[i].as_str());
        proof {
            assert(items.take(i + 1 as int).drop_last() =~= items.take(i as int));
            assert(items.take(i + 1 as int).last() == items[i as int]);
            if i == 0 {
                assert(comma_join(items.take(1)) == items[0]);
                assert(out@ =~= old(out)@ + lit("[") + comma_join(items.take(1)));
            } else {
                assert(out@ =~= old(out)@ + lit("[") + comma_join(items.take(i + 1 as int)));
            }
        }
        i = i + 1;
    }
    proof {
        assert(items.take(items.len() as int) =~= items);
    }
    push_lit(out, "]");
    proof {
        assert(out@ =~= old(out)@ + json_str_arr(views_of(xs@)));
    }
}

// ---------------------------------------------------------------------------
// The wire bodies
// ---------------------------------------------------------------------------

/// Keys and serialized member values of a section's JSON object, in order.
pub open spec fn spec_section_fields(s: TTMCompositionPlanSection) -> Seq<(Seq<char>, Seq<u8>)> {
    seq![
        ("section_name"@, json_str(s.section_name@)),
        ("positive_local_styles"@, json_str_arr(views_of(s.positive_local_styles@))),
        ("negative_local_styles"@, json_str_arr(views_of(s.negative_local_styles@))),
        ("duration_ms"@, dec_bytes(s.duration_ms as nat)),
        ("lines"@, json_str_arr(views_of(s.lines@))),
    ]
}

/// The JSON object for one section.
pub open spec fn spec_section_body(s: TTMCompositionPlanSection) -> Seq<u8> {
    json_obj(spec_section_fields(s))
}

/// Keys and serialized member values of a prompt plan's body, in order: the
/// prompt itself, and the duration member exactly when a duration was set.
pub open spec fn spec_prompt_fields(p: TTMPromptPlan) -> Seq<(Seq<char>, Seq<u8>)> {
    match p.music_length_ms {
        Option::None => seq![("prompt"@, json_str(p.prompt@))],
        Option::Some(n) => seq![
            ("prompt"@, json_str(p.prompt@)),
            ("music_length_ms"@, dec_bytes(n as nat)),
        ],
    }
}

/// The wire body of a prompt plan.
pub open spec fn spec_prompt_body(p: TTMPromptPlan) -> Seq<u8> {
    json_obj(spec_prompt_fields(p))
}

/// Keys and serialized member values of the object under `composition_plan`,
/// in order.
pub open spec fn spec_plan_fields(c: TTMCompositionPlan) -> Seq<(Seq<char>, Seq<u8>)> {
    seq![
        ("positive_global_styles"@, json_str_arr(views_of(c.positive_global_styles@))),
        ("negative_global_styles"@, json_str_arr(views_of(c.negative_global_styles@))),
        ("sections"@, json_arr(c.sections@.map_values(|s: TTMCompositionPlanSection| spec_section_body(s)))),
    ]
}

/// The object under the `composition_plan` key.
pub open spec fn spec_plan_obj(c: TTMCompositionPlan) -> Seq<u8> {
    json_obj(spec_plan_fields(c))
}

/// The wire body of a composition plan: one top-level `composition_plan`
/// member wrapping the plan's object.
pub open spec fn spec_composition_body(c: TTMCompositionPlan) -> Seq<u8> {
    json_obj(seq![("composition_plan"@, spec_plan_obj(c))])
}

/// The wire body of a request body value.
pub open spec fn spec_request_body(b: TTMRequestBody) -> Seq<u8> {
    match b {
        TTMRequestBody::Prompt(p) => spec_prompt_body(p),
        TTMRequestBody::Composition(w) => spec_composition_body(w.composition_plan),
    }
}

/// The wire body of a plan.
pub open spec fn spec_music_plan_body(plan: MusicPlan) -> Seq<u8> {
    match plan {
        MusicPlan::Prompt(p) => spec_prompt_body(p),
        MusicPlan::Composition(c) => spec_composition_body(c),
    }
}

/// Append an object member's key and the separating colon to `out`.
fn push_key(out: &mut Vec<u8>, key: &str)
    ensures
        final(out)@ == old(out)@ + json_str(key@) + lit(":"),
{
    push_json_string(out, key);
    push_lit(out, ":");
}

/// Append the JSON object of one section to `out`.
#[verifier::rlimit(100)]
#[verifier::spinoff_prover]
fn push_section(out: &mut Vec<u8>, s: &TTMCompositionPlanSection)
    ensures
        final(out)@ == old(out)@ + spec_section_body(*s),
{
    push_lit(out, "{");
    let ghost o1 = out@;
    push_key(out, "section_name");
    push_json_string(out, s.section_name.as_str());
    let ghost o2 = out@;
    push_lit(out, ",");
    push_key(out, "positive_local_styles");
    push_str_arr(out, &s.positive_local_styles);
    let ghost o3 = out@;
    push_lit(out, ",");
    push_key(out, "negative_local_styles");
    push_str_arr(out, &s.negative_local_styles);
    let ghost o4 = out@;
    push_lit(out, ",");
    push_key(out, "duration_ms");
    push_dec(out, s.duration_ms as u64);
    let ghost o5 = out@;
    push_lit(out, ",");
    push_key(out, "lines");
    push_str_arr(out, &s.lines);
    let ghost o6 = out@;
    push_lit(out, "}");
    proof {
        let f = |kv: (Seq<char>, Seq<u8>)| json_str(kv.0) + lit(":") + kv.1;
        let mapped = spec_section_fields(*s).map_values(f);
        assert(mapped =~= seq![
            json_str("section_name"@) + lit(":") + json_str(s.section_name@),
            json_str("positive_local_styles"@) + lit(":") + json_str_arr(
                views_of(s.positive_local_styles@),
            ),
            json_str("negative_local_styles"@) + lit(":") + json_str_arr(
                views_of(s.negative_local_styles@),
            ),
            json_str("duration_ms"@) + lit(":") + dec_bytes(s.duration_ms as nat),
            json_str("lines"@) + lit(":") + json_str_arr(views_of(s.lines@)),
        ]);
        assert(comma_join(mapped.take(1)) == mapped[0]);
        assert(o2 =~= o1 + mapped[0]);
        assert(mapped.take(2).drop_last() =~= mapped.take(1));
        assert(comma_join(mapped.take(2)) == comma_join(mapped.take(1)) + lit(",") + mapped[1]);
        assert(o3 =~= o2 + lit(",") + mapped[1]);
        assert(o3 =~= o1 + comma_join(mapped.take(2)));
        assert(mapped.take(3).drop_last() =~= mapped.take(2));
        assert(comma_join(mapped.take(3)) == comma_join(mapped.take(2)) + lit(",") + mapped[2]);
        assert(o4 =~= o3 + lit(",") + mapped[2]);
        assert(o4 =~= o1 + comma_join(mapped.take(3)));
        assert(mapped.take(4).drop_last() =~= mapped.take(3));
        assert(comma_join(mapped.take(4)) == comma_join(mapped.take(3)) + lit(",") + mapped[3]);
        assert(o5 =~= o4 + lit(",") + mapped[3]);
        assert(o5 =~= o1 + comma_join(mapped.take(4)));
        assert(mapped.take(5).drop_last() =~= mapped.take(4));
        assert(comma_join(mapped.take(5)) == comma_join(mapped.take(4)) + lit(",") + mapped[4]);
        assert(o6 =~= o5 + lit(",") + mapped[4]);
        assert(o6 =~= o1 + comma_join(mapped.take(5)));
        assert(mapped.take(5) =~= mapped);
        assert(out@ =~= old(out)@ + spec_section_body(*s));
    }
}

/// Append the JSON array of the plan's sections to `out`, in order.
fn push_sections(out: &mut Vec<u8>, ss: &Vec<TTMCompositionPlanSection>)
    ensures
        final(out)@ == old(out)@ + json_arr(
            ss@.map_values(|s: TTMCompositionPlanSection| spec_section_body(s)),
        ),
{
    let ghost items = ss@.map_values(|s: TTMCompositionPlanSection| spec_section_body(s));
    push_lit(out, "[");
    let mut i: usize = 0;
    while i < ss.len()
        invariant
            i <= ss.len(),
            items.len() == ss@.len(),
            forall|j: int| 0 <= j < ss@.len() ==> items[j] == spec_section_body(ss@[j]),
            out@ == old(out)@ + lit("[") + comma_join(items.take(i as int)),
        decreases ss.len() - i,
    {
        if i != 0 {
            push_lit(out, ",");
        }
        push_section(out, &ss[i]);
        proof {
            assert(items.take(i + 1 as int).drop_last() =~= items.take(i as int));
            assert(items.take(i + 1 as int).last() == items[i as int]);
            if i == 0 {
                assert(comma_join(items.take(1)) == items[0]);
                assert(out@ =~= old(out)@ + lit("[") + comma_join(items.take(1)));
            } else {
                assert(out@ =~= old(out)@ + lit("[") + comma_join(items.take(i + 1 as int)));
            }
        }
        i = i + 1;
    }
    proof {
        assert(items.take(items.len() as int) =~= items);
    }
    push_lit(out, "]");
    proof {
        assert(out@ =~= old(out)@ + json_arr(items));
    }
}

/// Append the wire body of a prompt plan to `out`.
fn push_prompt_body(out: &mut Vec<u8>, p: &TTMPromptPlan)
    ensures
        final(out)@ == old(out)@ + spec_prompt_body(*p),
{
    push_lit(out, "{");
    push_key(out, "prompt");
    push_json_string(out, p.prompt.as_str());
    if let Option::Some(n) = p.music_length_ms {
        push_lit(out, ",");
        push_key(out, "music_length_ms");
        push_dec(out, n as u64);
    }
    push_lit(out, "}");
    proof {
        let f = |kv: (Seq<char>, Seq<u8>)| json_str(kv.0) + lit(":") + kv.1;
        let mapped = spec_prompt_fields(*p).map_values(f);
        match p.music_length_ms {
            Option::None => {
                assert(mapped =~= seq![json_str("prompt"@) + lit(":") + json_str(p.prompt@)]);
                assert(comma_join(mapped) == mapped[0]);
            },
            Option::Some(n) => {
                assert(mapped =~= seq![
                    json_str("prompt"@) + lit(":") + json_str(p.prompt@),
                    json_str("music_length_ms"@) + lit(":") + dec_bytes(n as nat),
                ]);
                lemma_comma_join2(mapped[0], mapped[1]);
            },
        }
        assert(out@ =~= old(out)@ + spec_prompt_body(*p));
    }
}

/// Append the wire body of a composition plan to `out`.
#[verifier::rlimit(100)]
#[verifier::spinoff_prover]
fn push_composition_body(out: &mut Vec<u8>, c: &TTMCompositionPlan)
    ensures
        final(out)@ == old(out)@ + spec_composition_body(*c),
{
    push_lit(out, "{");
    push_key(out, "composition_plan");
    push_lit(out, "{");
    let ghost o1 = out@;
    push_key(out, "positive_global_styles");
    push_str_arr(out, &c.positive_global_styles);
    let ghost o2 = out@;
    push_lit(out, ",");
    push_key(out, "negative_global_styles");
    push_str_arr(out, &c.negative_global_styles);
    let ghost o3 = out@;
    push_lit(out, ",");
    push_key(out, "sections");
    push_sections(out, &c.sections);
    let ghost o4 = out@;
    push_lit(out, "}");
    let ghost o5 = out@;
    push_lit(out, "}");
    proof {
        let f = |kv: (Seq<char>, Seq<u8>)| json_str(kv.0) + lit(":") + kv.1;
        let inner = spec_plan_fields(*c).map_values(f);
        assert(inner =~= seq![
            json_str("positive_global_styles"@) + lit(":") + json_str_arr(
                views_of(c.positive_global_styles@),
            ),
            json_str("negative_global_styles"@) + lit(":") + json_str_arr(
                views_of(c.negative_global_styles@),
            ),
            json_str("sections"@) + lit(":") + json_arr(
                c.sections@.map_values(|s: TTMCompositionPlanSection| spec_section_body(s)),
            ),
        ]);
        assert(comma_join(inner.take(1)) == inner[0]);
        assert(o2 =~= o1 + inner[0]);
        assert(inner.take(2).drop_last() =~= inner.take(1));
        assert(comma_join(inner.take(2)) == comma_join(inner.take(1)) + lit(",") + inner[1]);
        assert(o3 =~= o2 + lit(",") + inner[1]);
        assert(o3 =~= o1 + comma_join(inner.take(2)));
        assert(inner.take(3).drop_last() =~= inner.take(2));
        assert(comma_join(inner.take(3)) == comma_join(inner.take(2)) + lit(",") + inner[2]);
        assert(o4 =~= o3 + lit(",") + inner[2]);
        assert(o4 =~= o1 + comma_join(inner.take(3)));
        assert(inner.take(3) =~= inner);
        assert(o5 =~= old(out)@ + lit("{") + json_str("composition_plan"@) + lit(":")
            + spec_plan_obj(*c));
        let outer = seq![("composition_plan"@, spec_plan_obj(*c))].map_values(f);
        assert(outer =~= seq![json_str("composition_plan"@) + lit(":") + spec_plan_obj(*c)]);
        assert(comma_join(outer) == outer[0]);
        assert(out@ =~= old(out)@ + spec_composition_body(*c));
    }
}

// ---------------------------------------------------------------------------
// Losslessness of the string escaping
// ---------------------------------------------------------------------------

/// The numeric value of an ASCII hexadecimal digit as `escape_bytes` emits
/// them, or 16 for any other byte.
pub open spec fn hex_val(b: u8) -> nat {
    if 48 <= b < 58 {
        (b - 48) as nat
    } else if 97 <= b < 103 {
        (b - 87) as nat
    } else {
        16
    }
}

/// Reading a JSON string literal's contents back, the inverse of
/// `escape_bytes`: resolve each backslash escape to its byte and pass every
/// other byte through; an unescaped quote or control byte, or a malformed
/// escape, is no escape of anything.
pub open spec fn unescape_bytes(s: Seq<u8>) -> Option<Seq<u8>>
    decreases s.len(),
{
    if s.len() == 0 {
        Option::Some(seq![])
    } else if s[0] == 92 {
        if s.len() >= 2 && (s[1] == 34 || s[1] == 92) {
            match unescape_bytes(s.subrange(2, s.len() as int)) {
                Option::Some(t) => Option::Some(seq![s[1]] + t),
                Option::None => Option::None,
            }
        } else if s.len() >= 2 && s[1] == 98 {
            match unescape_bytes(s.subrange(2, s.len() as int)) {
                Option::Some(t) => Option::Some(seq![8u8] + t),
                Option::None => Option::None,
            }
        } else if s.len() >= 2 && s[1] == 102 {
            match unescape_bytes(s.subrange(2, s.len() as int)) {
                Option::Some(t) => Option::Some(seq![12u8] + t),
                Option::None => Option::None,
            }
        } else if s.len() >= 2 && s[1] == 110 {
            match unescape_bytes(s.subrange(2, s.len() as int)) {
                Option::Some(t) => Option::Some(seq![10u8] + t),
                Option::None => Option::None,
            }
        } else if s.len() >= 2 && s[1] == 114 {
            match unescape_bytes(s.subrange(2, s.len() as int)) {
                Option::Some(t) => Option::Some(seq![13u8] + t),
                Option::None => Option::None,
            }
        } else if s.len() >= 2 && s[1] == 116 {
            match unescape_bytes(s.subrange(2, s.len() as int)) {
                Option::Some(t) => Option::Some(seq![9u8] + t),
                Option::None => Option::None,
            }
        } else if s.len() >= 6 && s[1] == 117 && s[2] == 48 && s[3] == 48 && hex_val(s[4]) < 16
            && hex_val(s[5]) < 16 {
            match unescape_bytes(s.subrange(6, s.len() as int)) {
                Option::Some(t) => Option::Some(
                    seq![(hex_val(s[4]) * 16 + hex_val(s[5])) as u8] + t,
                ),
                Option::None => Option::None,
            }
        } else {
            Option::None
        }
    } else if s[0] == 34 || s[0] < 32 {
        Option::None
    } else {
        match unescape_bytes(s.drop_first()) {
            Option::Some(t) => Option::Some(seq![s[0]] + t),
            Option::None => Option::None,
        }
    }
}

proof fn lemma_escape_bytes_append(a: Seq<u8>, b: Seq<u8>)
    ensures
        escape_bytes(a + b) == escape_bytes(a) + escape_bytes(b),
    decreases b.len(),
{
    if b.len() == 0 {
        assert(a + b =~= a);
        assert(escape_bytes(a) + escape_bytes(b) =~= escape_bytes(a));
    } else {
        lemma_escape_bytes_append(a, b.drop_last());
        assert((a + b).drop_last() =~= a + b.drop_last());
        assert((a + b).last() == b.last());
        assert(escape_bytes(a) + escape_bytes(b.drop_last()) + escape_byte(b.last()) =~= escape_bytes(
            a,
        ) + (escape_bytes(b.drop_last()) + escape_byte(b.last())));
    }
}

proof fn lemma_escape_bytes_first(bs: Seq<u8>)
    requires
        bs.len() > 0,
    ensures
        escape_bytes(bs) == escape_byte(bs[0]) + escape_bytes(bs.drop_first()),
{
    assert(bs =~= seq![bs[0]] + bs.drop_first());
    lemma_escape_bytes_append(seq![bs[0]], bs.drop_first());
    assert(seq![bs[0]].drop_last() =~= Seq::<u8>::empty());
    assert(escape_bytes(seq![bs[0]]) == escape_bytes(Seq::<u8>::empty()) + escape_byte(bs[0]));
    assert(escape_bytes(Seq::<u8>::empty()) + escape_byte(bs[0]) =~= escape_byte(bs[0]));
}

/// The escaping is lossless: unescaping the escape of any byte sequence
/// yields back exactly that sequence.
pub proof fn lemma_escape_round_trip(bs: Seq<u8>)
    ensures
        unescape_bytes(escape_bytes(bs)) == Option::Some(bs),
    decreases bs.len(),
{
    if bs.len() == 0 {
        assert(bs =~= seq![]);
    } else {
        let b0 = bs[0];
        let rest = bs.drop_first();
        lemma_escape_bytes_first(bs);
        lemma_escape_round_trip(rest);
        let e = escape_bytes(bs);
        let er = escape_bytes(rest);
        assert(seq![b0] + rest =~= bs);
        if b0 == 34 || b0 == 92 || b0 == 8 || b0 == 12 || b0 == 10 || b0 == 13 || b0 == 9 {
            assert(e.subrange(2, e.len() as int) =~= er);
        } else if b0 < 32 {
            assert(e.subrange(6, e.len() as int) =~= er);
            let hi = (b0 / 16) as nat;
            let lo = (b0 % 16) as nat;
            assert(hex_val(hex_byte(hi)) == hi);
            assert(hex_val(hex_byte(lo)) == lo);
            assert(b0 / 16 * 16 + b0 % 16 == b0) by (nonlinear_arith);
        } else {
            assert(e.drop_first() =~= er);
        }
    }
}

/// The value a run of decimal digit bytes denotes, read left to right.
pub open spec fn dec_val(s: Seq<u8>) -> nat
    decreases s.len(),
{
    if s.len() == 0 {
        0
    } else {
        dec_val(s.drop_last()) * 10 + (s.last() - 48) as nat
    }
}

/// The decimal printing is lossless: reading the digits of `n` back yields
/// exactly `n`.
pub proof fn lemma_dec_round_trip(n: nat)
    ensures
        dec_val(dec_bytes(n)) == n,
    decreases n,
{
    if n < 10 {
        assert(dec_bytes(n) == seq![digit_byte(n)]);
        assert(dec_bytes(n).last() == digit_byte(n));
        assert(dec_bytes(n).drop_last() =~= Seq::<u8>::empty());
        assert(dec_val(Seq::<u8>::empty()) == 0);
        assert((digit_byte(n) - 48) as nat == n);
    } else {
        assert(n / 10 < n) by (nonlinear_arith)
            requires
                n >= 10,
        ;
        lemma_dec_round_trip(n / 10);
        assert(dec_bytes(n) == dec_bytes(n / 10) + seq![digit_byte(n % 10)]);
        assert(dec_bytes(n).last() == digit_byte(n % 10));
        assert(dec_bytes(n).drop_last() =~= dec_bytes(n / 10));
        assert((digit_byte(n % 10) - 48) as nat == n % 10);
        assert(n / 10 * 10 + n % 10 == n) by (nonlinear_arith);
    }
}

/// A JSON string literal determines its characters exactly: between the two
/// quotes stand the escaped UTF-8 bytes of the characters, unescaping those
/// gives the encoding back, and decoding the encoding gives the characters
/// back.
pub proof fn lemma_json_str_round_trip(s: Seq<char>)
    ensures
        json_str(s).len() >= 2,
        json_str(s).first() == 34u8,
        json_str(s).last() == 34u8,
        unescape_bytes(json_str(s).subrange(1, json_str(s).len() - 1)) == Option::Some(
            encode_utf8(s),
        ),
        vstd::utf8::decode_utf8(encode_utf8(s)) == s,
{
    assert(lit("\"") =~= seq![34u8]) by {
        reveal_strlit("\"");
        assert("\""@.len() == 1 && "\""@[0] == '"');
        assert(vstd::utf8::is_ascii_chars("\""@));
        vstd::utf8::is_ascii_chars_encode_utf8("\""@);
    }
    lemma_escape_round_trip(encode_utf8(s));
    vstd::utf8::encode_utf8_decode_utf8(s);
    assert(json_str(s).subrange(1, json_str(s).len() - 1) =~= escape_bytes(encode_utf8(s)));
}

// ---------------------------------------------------------------------------
// Document shape
// ---------------------------------------------------------------------------

/// A scalar member value of an emitted JSON object: a string or a number.
pub enum JsonScalar {
    JStr(Seq<char>),
    JNum(u32),
}

/// The serialized bytes of a scalar member value.
pub open spec fn scalar_bytes(v: JsonScalar) -> Seq<u8> {
    match v {
        JsonScalar::JStr(s) => json_str(s),
        JsonScalar::JNum(n) => dec_bytes(n as nat),
    }
}

/// The members of a prompt plan's body, as a document: key and scalar value,
/// in order.
pub open spec fn prompt_doc(p: TTMPromptPlan) -> Seq<(Seq<char>, JsonScalar)> {
    match p.music_length_ms {
        Option::None => seq![("prompt"@, JsonScalar::JStr(p.prompt@))],
        Option::Some(n) => seq![
            ("prompt"@, JsonScalar::JStr(p.prompt@)),
            ("music_length_ms"@, JsonScalar::JNum(n)),
        ],
    }
}

/// Reading a prompt body back the way the provider does: a `prompt` string
/// member first, then optionally a `music_length_ms` number member, and
/// nothing else.
pub open spec fn read_prompt_doc(fields: Seq<(Seq<char>, JsonScalar)>) -> Option<
    (Seq<char>, Option<u32>),
> {
    if fields.len() == 1 && fields[0].0 == "prompt"@ && fields[0].1 is JStr {
        Option::Some((fields[0].1->JStr_0, Option::None))
    } else if fields.len() == 2 && fields[0].0 == "prompt"@ && fields[0].1 is JStr
        && fields[1].0 == "music_length_ms"@ && fields[1].1 is JNum {
        Option::Some((fields[0].1->JStr_0, Option::Some(fields[1].1->JNum_0)))
    } else {
        Option::None
    }
}

/// Round trip through the wire shape of a prompt plan: the serialized body
/// is exactly the JSON object of the plan's document, and reading that
/// document back the way the provider does yields the original prompt and
/// duration. The `music_length_ms` member is present iff a duration was set.
pub proof fn lemma_prompt_round_trip(p: TTMPromptPlan)
    ensures
        spec_prompt_body(p) == json_obj(
            prompt_doc(p).map_values(|kv: (Seq<char>, JsonScalar)| (kv.0, scalar_bytes(kv.1))),
        ),
        read_prompt_doc(prompt_doc(p)) == Option::Some((p.prompt@, p.music_length_ms)),
        prompt_doc(p)[0].0 == "prompt"@,
        p.music_length_ms is Some <==> (exists|i: int|
            0 <= i < prompt_doc(p).len() && prompt_doc(p)[i].0 == "music_length_ms"@),
{
    let doc = prompt_doc(p);
    let printed = doc.map_values(|kv: (Seq<char>, JsonScalar)| (kv.0, scalar_bytes(kv.1)));
    match p.music_length_ms {
        Option::None => {
            assert(printed =~= spec_prompt_fields(p));
            assert("prompt"@ != "music_length_ms"@) by {
                reveal_strlit("prompt");
                reveal_strlit("music_length_ms");
                assert("prompt"@.len() == 6);
                assert("music_length_ms"@.len() == 15);
            }
            assert(doc.len() == 1 && doc[0].0 == "prompt"@);
        },
        Option::Some(n) => {
            assert(printed =~= spec_prompt_fields(p));
            assert(doc[1].0 == "music_length_ms"@);
        },
    }
}

/// Shape of the wire body of a composition plan: a JSON object with the
/// single top-level key `composition_plan`, whose object lists the global
/// style tags and then a `sections` member holding the JSON array of the
/// plan's sections, serialized in input order.
pub proof fn lemma_composition_shape(c: TTMCompositionPlan)
    ensures
        spec_composition_body(c) == json_obj(seq![("composition_plan"@, spec_plan_obj(c))]),
        spec_plan_fields(c).len() == 3,
        spec_plan_fields(c)[2].0 == "sections"@,
        spec_plan_fields(c)[2].1 == json_arr(
            c.sections@.map_values(|s: TTMCompositionPlanSection| spec_section_body(s)),
        ),
        forall|i: int|
            0 <= i < c.sections@.len() ==> c.sections@.map_values(
                |s: TTMCompositionPlanSection| spec_section_body(s),
            )[i] == spec_section_body(c.sections@[i]),
{
}

/// Wrap a plan into the wire body value it is sent as: a prompt plan's
/// members stand at the top level, a composition plan is wrapped under the
/// `composition_plan` key.
pub fn to_request_body(plan: MusicPlan) -> (r: TTMRequestBody)
    ensures
        spec_request_body(r) == spec_music_plan_body(plan),
        (plan matches MusicPlan::Prompt(p) ==> r == TTMRequestBody::Prompt(p)),
        (plan matches MusicPlan::Composition(c) ==> r == TTMRequestBody::Composition(
            TTMRequestBodyComposition { composition_plan: c },
        )),
{
    match plan {
        MusicPlan::Prompt(p) => TTMRequestBody::Prompt(p),
        MusicPlan::Composition(c) => TTMRequestBody::Composition(
            TTMRequestBodyComposition { composition_plan: c },
        ),
    }
}

/// Serialize a wire body value to the exact bytes that are sent.
pub fn serialize_request_body(body: &TTMRequestBody) -> (r: Vec<u8>)
    ensures
        r@ == spec_request_body(*body),
{
    let mut out: Vec<u8> = Vec::new();
    match body {
        TTMRequestBody::Prompt(p) => push_prompt_body(&mut out, p),
        TTMRequestBody::Composition(w) => push_composition_body(&mut out, &w.composition_plan),
    }
    out
}

} // verus!
