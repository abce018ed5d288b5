//! The configuration tree of the service and its lookup by dotted paths
//! such as `database.url`.
use vstd::prelude::*;
use crate::decimal::{decimal_digits, decimal_int, i64_to_decimal, parse_i64, parse_i64_spec,
    u64_to_decimal, lemma_decimal_digits_value, lemma_parse_decimal_roundtrip, all_digits,
    digits_value, is_digit};
use crate::text::{split_char, split_on, str_eq, strings_view, lemma_split_char_join, lemma_split_char_no_sep};
use serde_yaml::Value;
use self::ConfigNumber::{Float, NegInt, PosInt};
use self::ConfigValue::{Mapping, Sequence, Tagged};

verus! {

/// A number of the configuration: a non-negative integer, a negative
/// integer, or a floating-point number held as its decimal text.
#[derive(Clone, Debug)]
pub enum ConfigNumber {
    PosInt(u64),
    NegInt(i64),
    Float(String),
}

/// A node of the configuration tree, as YAML has them. A mapping keeps its
/// entries in order; a tagged node keeps the node it tags.
#[derive(Debug)]
pub enum ConfigValue {
    Null,
    Bool(bool),
    Number(ConfigNumber),
    String(String),
    Sequence(Vec<ConfigValue>),
    Mapping(Vec<(ConfigValue, ConfigValue)>),
    Tagged(Box<ConfigValue>),
}

/// A node with its tags taken off.
pub open spec fn untag(v: ConfigValue) -> ConfigValue
    decreases v,
{
    match v {
        ConfigValue::Tagged(b) => untag(*b),
        _ => v,
    }
}

/// Whether a mapping key is the string `key`.
pub open spec fn key_matches(k: ConfigValue, key: Seq<char>) -> bool {
    k matches ConfigValue::String(s) && s@ == key
}

/// The value of the first entry whose key is the string `key`.
pub open spec fn entries_get(entries: Seq<(ConfigValue, ConfigValue)>, key: Seq<char>) -> Option<ConfigValue>
    decreases entries.len(),
{
    if entries.len() == 0 {
        None
    } else if key_matches(entries[0].0, key) {
        Some(entries[0].1)
    } else {
        entries_get(entries.skip(1), key)
    }
}

/// The child of a node under a string key: only a mapping (through its
/// tags) has children.
pub open spec fn child(v: ConfigValue, key: Seq<char>) -> Option<ConfigValue> {
    match untag(v) {
        ConfigValue::Mapping(entries) => entries_get(entries@, key),
        _ => None,
    }
}

/// The node found by following the segments from `v`, one child at a time.
pub open spec fn walk(v: ConfigValue, segs: Seq<Seq<char>>) -> Option<ConfigValue>
    decreases segs.len(),
{
    if segs.len() == 0 {
        Some(v)
    } else {
        match child(v, segs[0]) {
            Some(c) => walk(c, segs.skip(1)),
            None => None,
        }
    }
}

/// The text of a node read as a string: a boolean as `true` or `false`, a
/// number as its decimal text, a string as itself; nothing for other nodes.
pub open spec fn config_string(v: ConfigValue) -> Option<Seq<char>> {
    match v {
        ConfigValue::Bool(b) => Some(if b { "true"@ } else { "false"@ }),
        ConfigValue::Number(ConfigNumber::PosInt(u)) => Some(decimal_digits(u as nat)),
        ConfigValue::Number(ConfigNumber::NegInt(i)) => Some(decimal_int(i as int)),
        ConfigValue::Number(ConfigNumber::Float(t)) => Some(t@),
        ConfigValue::String(s) => Some(s@),
        _ => None,
    }
}

/// A node read as a 64-bit integer: an integer that fits, or a string
/// that parses as one; nothing for other nodes.
pub open spec fn config_i64(v: ConfigValue) -> Option<i64> {
    match v {
        ConfigValue::Number(ConfigNumber::PosInt(u)) => if u <= i64::MAX {
            Some(u as i64)
        } else {
            None
        },
        ConfigValue::Number(ConfigNumber::NegInt(i)) => Some(i),
        ConfigValue::String(s) => parse_i64_spec(s@),
        _ => None,
    }
}

/// The text of an optional string.
pub open spec fn opt_view(r: Option<String>) -> Option<Seq<char>> {
    match r {
        Some(s) => Some(s@),
        None => None,
    }
}

/// Whether an optional reference points at the node that the spec gives.
pub open spec fn points_at(r: Option<&ConfigValue>, s: Option<ConfigValue>) -> bool {
    match r {
        Some(x) => s == Some(*x),
        None => s is None,
    }
}

/// The configuration of the service.
pub struct Config {
    pub root: ConfigValue,
}

/// The configuration made of a tree.
pub fn config(root: ConfigValue) -> (c: Config)
    ensures
        c.root == root,
{
    Config { root }
}

/// Whether the text of a floating-point number shows that it is one: it
/// holds a decimal point or an exponent mark.
pub open spec fn float_text_marked(t: Seq<char>) -> bool {
    exists|i: int| 0 <= i < t.len() && (t[i] == '.' || t[i] == 'e')
}

/// Whether every floating-point number that a path of keys reaches in the
/// tree has text that shows it is one.
pub open spec fn floats_marked(v: ConfigValue) -> bool {
    forall|segs: Seq<Seq<char>>|
        #[trigger] walk(v, segs) matches Some(ConfigValue::Number(ConfigNumber::Float(t))) ==> float_text_marked(t@)
}

impl Config {
    /// A configuration as YAML text gives it: no floating-point number in it
    /// reads as an integer.
    pub open spec fn valid(&self) -> bool {
        floats_marked(self.root)
    }
}

/// A parsed YAML value.
#[verifier::external_type_specification]
#[verifier::external_body]
pub struct ExValue(Value);

/// The tree of a YAML document, or nothing when the text is not one.
pub uninterp spec fn yaml_document(text: Seq<char>) -> Option<ConfigValue>;

/// Turns a parsed YAML value into a configuration node, variant for
/// variant: a number into a non-negative integer when `as_u64` gives one,
/// else a negative integer when `as_i64` gives one, else its text; a
/// mapping into its entries in order; a tagged value into the value it
/// tags. This is the conversion of `parse_yaml`, and claims nothing.
#[verifier::external_body]
fn yaml_node(v: Value) -> ConfigValue {
    match v {
        Value::Null => ConfigValue::Null,
        Value::Bool(b) => ConfigValue::Bool(b),
        Value::Number(n) => ConfigValue::Number(match (n.as_u64(), n.as_i64()) {
            (Some(u), _) => PosInt(u),
            (_, Some(i)) => NegInt(i),
            _ => Float(n.to_string()),
        }),
        Value::String(s) => ConfigValue::String(s),
        Value::Sequence(items) => Sequence(items.into_iter().map(yaml_node).collect()),
        Value::Mapping(m) => Mapping(m.into_iter().map(|(k, x)| (yaml_node(k), yaml_node(x))).collect()),
        Value::Tagged(t) => Tagged(Box::new(yaml_node(t.value))),
    }
}

/// The tree of a YAML document.
///
/// Calls `serde_yaml::from_str` into `serde_yaml::Value` and converts the
/// value with `yaml_node`. The parse is a function of the text alone. A
/// number that is neither a `u64` nor an `i64` is a float, whose text
/// (`Number`'s `Display`) is `.nan`, `.inf`, `-.inf` or what
/// `ryu::format_finite` writes, which always holds a `.` or an `e`.
#[verifier::external_body]
fn parse_yaml(text: &str) -> (r: Option<ConfigValue>)
    ensures
        r == yaml_document(text@),
        r matches Some(v) ==> floats_marked(v),
{
    let value: Value = serde_yaml::from_str(text).ok()?;
    Some(yaml_node(value))
}

/// The configuration a YAML document gives, or nothing when the text is
/// not a YAML document.
pub fn load_config(text: &str) -> (r: Option<Config>)
    ensures
        match yaml_document(text@) {
            Some(v) => r matches Some(c) && c.root == v && c.valid(),
            None => r is None,
        },
{
    match parse_yaml(text) {
        Some(root) => Some(config(root)),
        None => None,
    }
}

fn untag_ref(v: &ConfigValue) -> (r: &ConfigValue)
    ensures
        *r == untag(*v),
    decreases v,
{
    match v {
        ConfigValue::Tagged(b) => untag_ref(&**b),
        _ => v,
    }
}

fn child_ref<'a>(v: &'a ConfigValue, key: &str) -> (r: Option<&'a ConfigValue>)
    ensures
        points_at(r, child(*v, key@)),
{
    let u = untag_ref(v);
    match u {
        ConfigValue::Mapping(entries) => {
            let mut i: usize = 0;
            assert(entries@.skip(0) =~= entries@);
            assert(child(*v, key@) == entries_get(entries@, key@));
            while i < entries.len()
                invariant
                    i <= entries@.len(),
                    child(*v, key@) == entries_get(entries@, key@),
                    entries_get(entries@, key@) == entries_get(entries@.skip(i as int), key@),
                decreases entries.len() - i,
            {
                let ghost rest = entries@.skip(i as int);
                assert(rest.skip(1) =~= entries@.skip(i + 1));
                assert(rest[0] == entries@[i as int]);
                let matched = match &entries[i].0 {
                    ConfigValue::String(s) => str_eq(s.as_str(), key),
                    _ => false,
                };
                if matched {
                    assert(key_matches(rest[0].0, key@));
                    assert(entries_get(rest, key@) == Some(rest[0].1));
                    return Some(&entries[i].1);
                }
                i = i + 1;
            }
            None
        },
        _ => None,
    }
}

impl Config {
    /// The node at a dotted path, if there is one.
    pub open spec fn lookup(&self, path: Seq<char>) -> Option<ConfigValue> {
        walk(self.root, split_char(path, '.'))
    }

    /// The node at a dotted path: the child of the root under the first
    /// segment, then its child under the next, and so on.
    pub fn raw_data(&self, path: &str) -> (r: Option<&ConfigValue>)
        ensures
            points_at(r, self.lookup(path@)),
    {
        let segs = split_on(path, '.');
        let ghost specs = strings_view(segs@);
        let mut cur: &ConfigValue = &self.root;
        let mut i: usize = 0;
        assert(specs.skip(0) =~= specs);
        while i < segs.len()
            invariant
                i <= segs@.len(),
                specs == strings_view(segs@),
                specs == split_char(path@, '.'),
                self.lookup(path@) == walk(*cur, specs.skip(i as int)),
            decreases segs.len() - i,
        {
            let ghost rest = specs.skip(i as int);
            assert(rest[0] == segs@[i as int]@);
            assert(rest.skip(1) =~= specs.skip(i + 1));
            match child_ref(cur, segs[i].as_str()) {
                Some(c) => {
                    cur = c;
                },
                None => {
                    return None;
                },
            }
            i = i + 1;
        }
        assert(specs.skip(i as int).len() == 0);
        Some(cur)
    }

    /// The value at a dotted path as a string: a boolean as `true` or
    /// `false`, a number as its decimal text, a string as itself; `None`
    /// when the path leads nowhere or to another kind of node.
    pub fn get_string(&self, path: &str) -> (r: Option<String>)
        ensures
            opt_view(r) == (match self.lookup(path@) {
                Some(v) => config_string(v),
                None => None,
            }),
    {
        match self.raw_data(path) {
            None => None,
            Some(v) => match v {
                ConfigValue::Bool(b) => Some(
                    if *b {
                        String::from_str("true")
                    } else {
                        String::from_str("false")
                    },
                ),
                ConfigValue::Number(n) => Some(
                    match n {
                        ConfigNumber::PosInt(u) => u64_to_decimal(*u),
                        ConfigNumber::NegInt(i) => i64_to_decimal(*i),
                        ConfigNumber::Float(t) => t.clone(),
                    },
                ),
                ConfigValue::String(s) => Some(s.clone()),
                _ => None,
            },
        }
    }

    /// The value at a dotted path as a 64-bit integer: an integer that
    /// fits, or a string that parses as one; `None` otherwise.
    pub fn get_i64(&self, path: &str) -> (r: Option<i64>)
        ensures
            r == (match self.lookup(path@) {
                Some(v) => config_i64(v),
                None => None,
            }),
    {
        match self.raw_data(path) {
            None => None,
            Some(v) => match v {
                ConfigValue::Number(ConfigNumber::PosInt(u)) => if *u <= 9223372036854775807u64 {
                    Some(*u as i64)
                } else {
                    None
                },
                ConfigValue::Number(ConfigNumber::NegInt(i)) => Some(*i),
                ConfigValue::String(s) => parse_i64(s.as_str()),
                _ => None,
            },
        }
    }
}

/// Text that holds a decimal point or an exponent mark does not parse as
/// an integer.
proof fn lemma_marked_text_is_no_integer(t: Seq<char>)
    requires
        float_text_marked(t),
    ensures
        parse_i64_spec(t) is None,
{
    let i = choose|i: int| 0 <= i < t.len() && (t[i] == '.' || t[i] == 'e');
    if t.len() > 0 {
        let body = if t[0] == '-' || t[0] == '+' { t.skip(1) } else { t };
        if t[0] == '-' || t[0] == '+' {
            assert(i >= 1);
            assert(body[i - 1] == t[i]);
            assert(!is_digit(body[i - 1]));
        } else {
            assert(!is_digit(body[i]));
        }
        assert(!all_digits(body));
    }
}

/// Reading a value of a valid configuration as an integer agrees with
/// reading it as a string and parsing that string.
pub proof fn lemma_get_i64_agrees_with_get_string(c: Config, path: Seq<char>)
    requires
        c.valid(),
    ensures
        (match c.lookup(path) {
            Some(v) => config_i64(v),
            None => None,
        }) == (match c.lookup(path) {
            Some(v) => match config_string(v) {
                Some(s) => parse_i64_spec(s),
                None => None,
            },
            None => None,
        }),
{
    match c.lookup(path) {
        Some(ConfigValue::Bool(b)) => {
            reveal_strlit("true");
            reveal_strlit("false");
            assert(parse_i64_spec("true"@) is None) by {
                assert(!is_digit("true"@[0]));
                assert(!all_digits("true"@));
            }
            assert(parse_i64_spec("false"@) is None) by {
                assert(!is_digit("false"@[0]));
                assert(!all_digits("false"@));
            }
        },
        Some(ConfigValue::Number(ConfigNumber::PosInt(u))) => {
            lemma_decimal_digits_value(u as nat);
            let d = decimal_digits(u as nat);
            assert(is_digit(d[0]));
            if u <= i64::MAX {
                lemma_parse_decimal_roundtrip(u as i64);
            }
        },
        Some(ConfigValue::Number(ConfigNumber::NegInt(i))) => {
            lemma_parse_decimal_roundtrip(i);
        },
        Some(ConfigValue::Number(ConfigNumber::Float(t))) => {
            assert(walk(c.root, split_char(path, '.')) == c.lookup(path));
            lemma_marked_text_is_no_integer(t@);
        },
        _ => {},
    }
}

/// A path of one key (no dot in it) finds the child of the root under
/// that key.
pub proof fn lemma_lookup_one_key(c: Config, key: Seq<char>)
    requires
        !key.contains('.'),
    ensures
        c.lookup(key) == child(c.root, key),
{
    lemma_split_char_no_sep(key, '.');
    let segs = seq![key];
    assert(segs.skip(1) =~= Seq::<Seq<char>>::empty());
    match child(c.root, key) {
        Some(x) => assert(walk(x, segs.skip(1)) == Some(x)),
        None => {},
    }
}

/// A dotted path is followed one key at a time, however many keys it has:
/// `key.rest` finds what `rest` finds from the child under `key`, and
/// nothing when there is no such child.
pub proof fn lemma_lookup_first_key(c: Config, key: Seq<char>, rest: Seq<char>)
    requires
        !key.contains('.'),
    ensures
        c.lookup(key + seq!['.'] + rest) == (match child(c.root, key) {
            Some(x) => Config { root: x }.lookup(rest),
            None => None,
        }),
{
    lemma_split_char_join(key, rest, '.');
    lemma_split_char_no_sep(key, '.');
    let segs = seq![key] + split_char(rest, '.');
    assert(split_char(key + seq!['.'] + rest, '.') == segs);
    assert(segs[0] == key);
    assert(segs.skip(1) =~= split_char(rest, '.'));
}

} // verus!
