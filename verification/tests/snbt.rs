use bytes::Bytes;
use crab_nbt::nbt::compound::NbtCompound;
use crab_nbt::nbt::snbt::de::values::{SnbtError, SnbtValue};
use crab_nbt::nbt::tag::NbtTag;

/// The tag that a value read from SNBT stands for, its float texts read as Rust reads them;
/// `None` where one of them is no float.
fn to_tag(v: SnbtValue) -> Option<NbtTag> {
    Some(match v {
        SnbtValue::Tag(t) => t,
        SnbtValue::Float(s) => NbtTag::Float(s.parse::<f32>().ok()?.to_bits()),
        SnbtValue::Double(s) => NbtTag::Double(s.parse::<f64>().ok()?.to_bits()),
        SnbtValue::FloatTruth(s) => {
            let x = s.parse::<f32>().ok()?;
            NbtTag::Byte((x <= -1.0 || x >= 1.0) as i8)
        }
        SnbtValue::DoubleTruth(s) => {
            let x = s.parse::<f64>().ok()?;
            NbtTag::Byte((x <= -1.0 || x >= 1.0) as i8)
        }
        SnbtValue::List(l) => {
            let mut tags = Vec::new();
            for v in l {
                tags.push(to_tag(v)?);
            }
            NbtTag::List(tags)
        }
        SnbtValue::Compound(c) => {
            let mut compound = NbtCompound::new();
            for (name, value) in c {
                compound.child_tags.push((name, to_tag(value)?));
            }
            NbtTag::Compound(compound)
        }
    })
}

/// Reads the text as a tag; `Err(None)` where a float text is no float.
fn parse(s: &str) -> Result<NbtTag, Option<SnbtError>> {
    match SnbtValue::parse(s) {
        Ok(v) => to_tag(v).ok_or(None),
        Err(e) => Err(Some(e)),
    }
}

fn tag_helper(s: &str) -> NbtTag {
    parse(s).unwrap()
}

fn string(s: &str) -> NbtTag {
    NbtTag::String(s.to_string())
}

#[test]
fn nbt_tag() {
    assert_eq!(tag_helper("Hello"), NbtTag::String("Hello".to_owned()));
    assert_eq!(parse(r#""true""#), Ok(NbtTag::String("true".to_string())));
    assert_eq!(parse(r#""false""#), Ok(NbtTag::String("false".to_string())));
}

#[test]
fn nbt_list() {
    assert_eq!(tag_helper("[]"), NbtTag::List(Vec::new()));
    assert!(parse("[,]").is_err());
    assert_eq!(
        tag_helper("[A,B,C ,D,      E,    F    ,   G    ]"),
        NbtTag::List("ABCDEFG".chars().map(|c| NbtTag::String(c.to_string())).collect())
    );
    assert_eq!(
        tag_helper("[A,[],B,{},]"),
        NbtTag::List(vec![
            NbtTag::String("A".to_string()),
            NbtTag::List(Vec::new()),
            NbtTag::String("B".to_string()),
            NbtTag::Compound(NbtCompound::new()),
        ])
    );
    assert_eq!(
        tag_helper("[\"A\", \"B\", C, \"D\", E]"),
        NbtTag::List("ABCDE".chars().map(|c| c.to_string()).map(NbtTag::String).collect())
    );
}

#[test]
fn nbt_uuids() {
    assert_eq!(
        parse("uuid(\"7c3be0c5-6abd-4fa5-b3f1-0634daa981df\")"),
        Ok(NbtTag::IntArray(vec![2084298949, 1790791589, -1276049868, -626425377]))
    );
    assert_eq!(
        parse("uuid(\"7c3be0c5-6abd-4fa5-b3f1-634daa981df\")"),
        Ok(NbtTag::IntArray(vec![2084298949, 1790791589, -1276049868, -626425377]))
    );
    assert_eq!(
        parse("uuid(\"7-c3be0c5-6abd4fa5b3f10634-daa981d-f\")"),
        Ok(NbtTag::IntArray(vec![7, -523958732, -1742929920, 15]))
    );
    assert_eq!(
        parse("uuid(\"7-c-3-be0c56abd4fa5-b3f10634daa981df\")"),
        Ok(NbtTag::IntArray(vec![7, 786435, 1336215092, -626425377]))
    );

    assert!(parse("uuid(7c3be0c5-6abd-4fa5-b3f1-0634daa981df)").is_err());
    assert!(parse("uuid(\"7c3be0c56abd4fa5b3f10634daa981df\")").is_err());
    assert!(parse("uuid(\"7c3be0c5-6abd-4fa5-b3f1-0634-daa981df\")").is_err());
    assert!(parse("uuid(\"-7c3be0c56abd-4fa5b3f1-0634daa9-81df\")").is_err());
    assert!(parse("uuid(\"7--c3be0c56-abd4fa5b-3f10634d-aa981df\")").is_err());
}

#[test]
fn nbt_compound() {
    let mut expected = NbtCompound::new();
    expected.child_tags.push(("components".to_string(), NbtTag::List(Vec::new())));
    assert_eq!(tag_helper("{components:[]}"), NbtTag::Compound(expected));

    assert_eq!(parse("{}"), Ok(NbtTag::Compound(NbtCompound::new())));
    assert!(parse("{,}").is_err());
    let mut expected = NbtCompound::new();
    expected.child_tags.push(("a".into(), 1i32.into()));
    assert_eq!(parse("{\"a\":1,}"), Ok(NbtTag::Compound(expected)));
}

#[test]
fn nbt_numbers() {
    assert_eq!(parse("1e7f"), Ok(NbtTag::Float(1e7f32.to_bits())));
    assert_eq!(parse("1e7"), Ok(NbtTag::Double(1e7f64.to_bits())));
    assert_eq!(parse("0.0_4E10f"), Ok(NbtTag::Float(0.0_4E10f32.to_bits())));
    assert_eq!(parse("10"), Ok(NbtTag::Int(10)));
    assert_eq!(parse("-25"), Ok(NbtTag::Int(-25)));
    assert_eq!(parse("5b"), Ok(NbtTag::Byte(5)));
    assert_eq!(parse("-128b"), Ok(NbtTag::Byte(-128)));
    assert_eq!(parse("127b"), Ok(NbtTag::Byte(127)));
    assert_eq!(parse("50l"), Ok(NbtTag::Long(50)));
    assert_eq!(parse("50L"), Ok(NbtTag::Long(50)));

    assert_eq!(parse("255UB"), Ok(NbtTag::Byte(-1)));
    assert_eq!(parse("10SB"), Ok(NbtTag::Byte(10)));
    assert_eq!(parse("0b0b"), Ok(NbtTag::Byte(0)));

    assert_eq!(parse("0x1f"), Ok(NbtTag::Int(0x1f)));

    let truth = NbtTag::Byte(1);
    let falsity = NbtTag::Byte(0);
    assert_eq!(parse("bool(500)"), Ok(truth.clone()));
    assert_eq!(parse("bool(0)"), Ok(falsity.clone()));
    assert_eq!(parse("bool(-0.9999999F)"), Ok(falsity.clone()));
    assert_eq!(parse("bool(-0.9999999D)"), Ok(falsity.clone()));
    assert_eq!(parse("bool(TRuE)"), Ok(truth));
    assert_eq!(parse("bool(faLSe)"), Ok(falsity));
}

#[test]
fn nbt_arrays() {
    assert_eq!(
        parse("[I; 2084298949, 1790791589, -1276049868, -626425377]"),
        Ok(NbtTag::IntArray(vec![2084298949, 1790791589, -1276049868, -626425377]))
    );
    assert_eq!(parse("[B;]"), Ok(NbtTag::ByteArray(Bytes::new())));
    assert_eq!(parse("[I;]"), Ok(NbtTag::IntArray(Vec::new())));
    assert!(parse("[I;,]").is_err());
    assert_eq!(parse("[I; 0, 1B, 2S, 3I]"), Ok(NbtTag::IntArray(vec![0, 1, 2, 3])));
    assert_eq!(parse("[L; 0, 1B, 2S, 3I, 4L,]"), Ok(NbtTag::LongArray(vec![0, 1, 2, 3, 4])));
    assert_eq!(
        parse("[B; 0, 0b1b, 2, 0x3]"),
        Ok(NbtTag::ByteArray(vec![0u8, 1, 2, 3].into()))
    );
}

#[test]
fn nbt_fails() {
    assert!(parse(r#"{"": {}}"#).is_err());

    assert!(parse("1a").is_err());
    assert!(parse("0x").is_err());
    assert!(parse("_1E1").is_err());
    assert!(parse("._1E1").is_err());
    assert!(parse("_.1E1").is_err());
    assert!(parse("1_E1").is_err());
    assert!(parse("1E_1").is_err());
    assert!(parse("1E1_").is_err());
    assert!(parse("1E.1").is_err());
    assert!(parse("1E1.").is_err());
}

#[test]
fn quoted_strings() {
    assert_eq!(parse(r#""a \"b\" c""#), Ok(string("a \"b\" c")));
    assert_eq!(parse(r#"'it''s'"#).is_err(), true);
    assert_eq!(parse(r#"'say "hi"'"#), Ok(string("say \"hi\"")));
    assert_eq!(parse(r#""tab\there\\""#), Ok(string("tab\there\\")));
    assert_eq!(parse("\"\u{2603}\""), Ok(string("\u{2603}")));
    assert!(parse(r#""unclosed"#).is_err());
    assert!(parse(r#""bad \q escape""#).is_err());
    assert_eq!(parse("a-b_c.d+e"), Ok(string("a-b_c.d+e")));
    assert_eq!(parse("TRUE"), Ok(NbtTag::Byte(1)));
    assert_eq!(parse("False"), Ok(NbtTag::Byte(0)));
}

#[test]
fn nbt_strings() {
    assert_eq!(tag_helper(r#""\N{Snowman}""#), NbtTag::String("\u{2603}".to_owned()));
    assert_eq!(tag_helper(r#""\N{sNoWmAn}""#), NbtTag::String("\u{2603}".to_owned()));
    assert_eq!(tag_helper(r#""\N{Low Line}""#), NbtTag::String("_".to_owned()));
    assert_eq!(
        tag_helper(r#""\N{MODIFIER LETTER SMALL TURNED R WITH LONG LEG AND RETROFLEX HOOK}""#),
        NbtTag::String("\u{107A7}".to_owned())
    );

    // Minecraft does not follow UAX44-LM2 (loose matching)
    assert!(parse(r#""\N{Low-Line}""#).is_err());
}

#[test]
fn named_escapes() {
    assert_eq!(parse(r#"'a\N{LATIN SMALL LETTER E WITH ACUTE}b'"#), Ok(string("a\u{e9}b")));
    assert_eq!(parse(r#""\N{space}\N{COLON}\N{quotation mark}""#), Ok(string(" :\"")));
    assert_eq!(parse(r#""\N{ZERO WIDTH NO-BREAK SPACE}""#), Ok(string("\u{feff}")));
    assert!(parse(r#""\N{NO SUCH CHARACTER}""#).is_err());
    assert!(parse(r#""\N{Snowman""#).is_err());
    assert!(parse(r#""\NSnowman""#).is_err());
    assert!(parse(r#""\N{}""#).is_err());
    // the error points at the `N`
    match SnbtValue::parse(r#""ab\N{Nothing}""#) {
        Err(SnbtError::Syntax(e)) => assert_eq!(e.index, 4),
        other => panic!("expected an escape error, got {other:?}"),
    }
}

#[test]
fn nested_values() {
    let mut inner = NbtCompound::new();
    inner.child_tags.push(("x".to_string(), NbtTag::Int(1)));
    let mut outer = NbtCompound::new();
    outer.child_tags.push(("list".to_string(), NbtTag::List(vec![NbtTag::Compound(inner), NbtTag::Byte(1)])));
    outer.child_tags.push(("s".to_string(), string("v")));
    assert_eq!(
        tag_helper("{ list : [ { x : 1 } , true ] , 's' : v }"),
        NbtTag::Compound(outer)
    );
    assert_eq!(tag_helper("  [1,2]  ".trim_start()), NbtTag::List(vec![NbtTag::Int(1), NbtTag::Int(2)]));
}

#[test]
fn error_positions() {
    match SnbtValue::parse("[1 2]") {
        Err(SnbtError::Syntax(e)) => {
            assert_eq!(e.index, 3);
            assert_eq!(e.expected, ", or ]");
        }
        other => panic!("unexpected {other:?}"),
    }
    match SnbtValue::parse("{a 1}") {
        Err(SnbtError::Syntax(e)) => {
            assert_eq!(e.index, 3);
            assert_eq!(e.expected, ":");
        }
        other => panic!("unexpected {other:?}"),
    }
    match SnbtValue::parse("bool(1") {
        Err(SnbtError::Syntax(e)) => {
            assert_eq!(e.index, 6);
            assert_eq!(e.expected, ")");
        }
        other => panic!("unexpected {other:?}"),
    }
    match SnbtValue::parse("1 x") {
        Err(SnbtError::Syntax(e)) => {
            assert_eq!(e.index, 2);
            assert_eq!(e.expected, "the end of the text");
        }
        other => panic!("unexpected {other:?}"),
    }
    assert!(matches!(SnbtValue::parse("uuid(\"x-y\")"), Err(SnbtError::Uuid(_))));
    assert!(matches!(SnbtValue::parse(""), Err(SnbtError::Syntax(_))));
    assert!(matches!(SnbtValue::parse("[Q; 1]"), Err(SnbtError::Number(_))));
}

#[test]
fn floats_keep_text() {
    assert_eq!(SnbtValue::parse("1.5f"), Ok(SnbtValue::Float("1.5".to_string())));
    assert_eq!(SnbtValue::parse("2.5"), Ok(SnbtValue::Double("2.5".to_string())));
    assert_eq!(SnbtValue::parse("bool(2.5f)"), Ok(SnbtValue::FloatTruth("2.5".to_string())));
}
