use vstd::prelude::*;
use vstd::string::StringExecFns;
use crate::level::{Level, LevelFilter, spec_level_from_str, spec_levelfilter_from_str};
use crate::log_console::{BuilderModel, ConsoleAppender, ConsoleAppenderBuilder, Target};
use crate::text::{
    as_chars, chars_eq_str, lower_chars, parse_i64_chars, parse_u8_chars, spec_parse_i64,
    spec_parse_u8, spec_split, spec_to_lower, spec_trim, split_chars, string_from_chars,
    trim_chars,
};

verus! {

/// The mathematical shape of one configuration value.
pub enum ValModel {
    Str(Seq<char>),
    Int(i64),
    Bool(bool),
    Table(Seq<(Seq<char>, u64)>),
    List(Seq<Seq<char>>),
}

/// One configuration value: a piece of text, a number, a truth value, a
/// table of named color codes, or a list of names.
#[derive(Debug, Clone, PartialEq)]
pub enum ConfValue {
    Str(String),
    Int(i64),
    Bool(bool),
    Table(Vec<(String, u64)>),
    List(Vec<String>),
}

/// The view of a table of named color codes.
pub open spec fn table_view(t: Seq<(String, u64)>) -> Seq<(Seq<char>, u64)> {
    Seq::new(t.len(), |i: int| (t[i].0@, t[i].1))
}

/// The view of a list of names.
pub open spec fn list_view(l: Seq<String>) -> Seq<Seq<char>> {
    Seq::new(l.len(), |i: int| l[i]@)
}

impl View for ConfValue {
    type V = ValModel;

    open spec fn view(&self) -> ValModel {
        match self {
            ConfValue::Str(s) => ValModel::Str(s@),
            ConfValue::Int(i) => ValModel::Int(*i),
            ConfValue::Bool(b) => ValModel::Bool(*b),
            ConfValue::Table(t) => ValModel::Table(table_view(t@)),
            ConfValue::List(l) => ValModel::List(list_view(l@)),
        }
    }
}

/// A configuration section: keyed values, in insertion order, keys unique by
/// construction.
#[derive(Debug, Clone, PartialEq, Default)]
pub struct ConfMap {
    entries: Vec<(String, ConfValue)>,
}

impl View for ConfMap {
    type V = Seq<(Seq<char>, ValModel)>;

    closed spec fn view(&self) -> Seq<(Seq<char>, ValModel)> {
        Seq::new(self.entries@.len(), |i: int| (self.entries@[i].0@, self.entries@[i].1@))
    }
}

/// The value under `key`, if the map holds one.
pub open spec fn map_get(m: Seq<(Seq<char>, ValModel)>, key: Seq<char>) -> Option<ValModel>
    decreases m.len(),
{
    if m.len() == 0 {
        None
    } else if m[0].0 == key {
        Some(m[0].1)
    } else {
        map_get(m.drop_first(), key)
    }
}

impl ConfMap {
    /// An empty section.
    pub fn new() -> (r: Self)
        ensures
            r@ == Seq::<(Seq<char>, ValModel)>::empty(),
    {
        let r = ConfMap { entries: Vec::new() };
        proof {
            assert(r@ =~= Seq::<(Seq<char>, ValModel)>::empty());
        }
        r
    }

    /// Appends one keyed value.
    pub fn insert(&mut self, key: String, value: ConfValue)
        ensures
            final(self)@ == old(self)@.push((key@, value@)),
    {
        let ghost k = key@;
        let ghost v = value@;
        self.entries.push((key, value));
        proof {
            assert(self@ =~= old(self)@.push((k, v)));
        }
    }

    /// The value stored under `key`, if any.
    pub fn get(&self, key: &str) -> (r: Option<&ConfValue>)
        ensures
            match r {
                Some(v) => map_get(self@, key@) == Some(v@),
                None => map_get(self@, key@) == None::<ValModel>,
            },
    {
        let mut i: usize = 0;
        proof {
            assert(self@.subrange(0, self@.len() as int) =~= self@);
        }
        while i < self.entries.len()
            invariant
                i <= self.entries@.len(),
                map_get(self@.subrange(i as int, self@.len() as int), key@) == map_get(
                    self@,
                    key@,
                ),
            decreases self.entries@.len() - i,
        {
            let ghost before = self@.subrange(i as int, self@.len() as int);
            if crate::text::str_eq(self.entries[i].0.as_str(), key) {
                return Some(&self.entries[i].1);
            }
            i = i + 1;
            proof {
                assert(before.drop_first() =~= self@.subrange(i as int, self@.len() as int));
            }
        }
        proof {
            assert(self@.subrange(self@.len() as int, self@.len() as int) =~= Seq::<(
                Seq<char>,
                ValModel,
            )>::empty());
        }
        None
    }

    /// How many values the section holds.
    pub fn len(&self) -> (r: usize)
        ensures
            r == self@.len(),
    {
        self.entries.len()
    }
}

/// A configuration error, carrying its message.
#[derive(Debug, Clone, PartialEq)]
pub struct ConfError {
    msg: String,
}

impl View for ConfError {
    type V = Seq<char>;

    closed spec fn view(&self) -> Seq<char> {
        self.msg@
    }
}

impl ConfError {
    /// An error with the given message.
    pub fn new(msg: String) -> (r: Self)
        ensures
            r@ == msg@,
    {
        ConfError { msg }
    }

    /// The message, as text.
    pub fn to_string(&self) -> (r: String)
        ensures
            r@ == self@,
    {
        self.msg.clone()
    }

    /// A copy carrying the same message.
    pub fn duplicate(&self) -> (r: Self)
        ensures
            r@ == self@,
    {
        ConfError { msg: self.msg.clone() }
    }
}

/// The message for an unknown appender kind field.
pub open spec fn msg_invalid_type(t: Seq<char>) -> Seq<char> {
    "Invalid appender type "@ + t
}

/// The message for an unknown level field.
pub open spec fn msg_invalid_level(t: Seq<char>) -> Seq<char> {
    "Invalid level \""@ + t + "\" specified"@
}

/// The message for an unknown console target field.
pub open spec fn msg_invalid_target(t: Seq<char>) -> Seq<char> {
    "Invalid target \""@ + t + "\""@
}

/// The message for an unknown file mode field.
pub open spec fn msg_invalid_file_mode(t: Seq<char>) -> Seq<char> {
    "Invalid file mode \""@ + t + "\" specified"@
}

/// The comma-separated fields of a configuration string, each trimmed.
pub open spec fn trimmed_fields(s: Seq<char>) -> Seq<Seq<char>> {
    let fs = spec_split(s, ',');
    Seq::new(fs.len(), |i: int| spec_trim(fs[i]))
}

/// The canonical level name behind a numeric or lower-case level field.
pub open spec fn spec_level_token(t: Seq<char>) -> Option<Seq<char>> {
    if t == "0"@ || t == "off"@ {
        Some("OFF"@)
    } else if t == "1"@ || t == "trace"@ {
        Some("TRACE"@)
    } else if t == "2"@ || t == "debug"@ {
        Some("DEBUG"@)
    } else if t == "3"@ || t == "info"@ {
        Some("INFO"@)
    } else if t == "4"@ || t == "warn"@ {
        Some("WARN"@)
    } else if t == "5"@ || t == "error"@ {
        Some("ERROR"@)
    } else {
        None
    }
}

/// The level name that sits at a place of the severity table: the color list
/// assigns its entries to the levels in this order.
pub open spec fn level_name_at(i: int) -> Seq<char> {
    if i == 1 {
        "ERROR"@
    } else if i == 2 {
        "WARN"@
    } else if i == 3 {
        "INFO"@
    } else if i == 4 {
        "DEBUG"@
    } else if i == 5 {
        "TRACE"@
    } else {
        ""@
    }
}

/// The color entries read from the space-separated pieces, beginning at
/// `i`: each piece that parses as a color code is assigned to the level at
/// its place; at most five pieces are read, the rest are passed over.
pub open spec fn color_go(ps: Seq<Seq<char>>, i: int) -> Seq<(Seq<char>, u64)>
    decreases ps.len() - i,
{
    if i >= ps.len() || i >= 5 {
        Seq::empty()
    } else {
        match spec_parse_u8(ps[i]) {
            Some(c) => seq![(level_name_at(i + 1), c as u64)] + color_go(ps, i + 1),
            None => color_go(ps, i + 1),
        }
    }
}

/// The color table written by a space-separated color field.
pub open spec fn spec_color_table(t: Seq<char>) -> Seq<(Seq<char>, u64)> {
    color_go(spec_split(t, ' '), 0)
}

/// What parsing a compact appender configuration string returns: the keyed
/// section it describes, or the message rejecting it.
pub open spec fn spec_appender_parse(s: Seq<char>) -> Result<Seq<(Seq<char>, ValModel)>, Seq<
    char,
>> {
    let fields = trimmed_fields(s);
    let f0 = fields[0];
    if f0 != "1"@ && f0 != "2"@ {
        Err(msg_invalid_type(f0))
    } else {
        let tyname = if f0 == "1"@ {
            "console"@
        } else {
            "file"@
        };
        let lvl = if fields.len() < 2 {
            Some("DEBUG"@)
        } else {
            spec_level_token(fields[1])
        };
        match lvl {
            None => Err(msg_invalid_level(fields[1])),
            Some(lvlname) => {
                let base = seq![
                    ("type"@, ValModel::Str(tyname)),
                    ("level"@, ValModel::Str(lvlname)),
                ];
                if f0 == "1"@ {
                    let with_colors = if fields.len() >= 3 {
                        base.push(("color_map"@, ValModel::Table(spec_color_table(fields[2]))))
                    } else {
                        base
                    };
                    if fields.len() < 4 {
                        Ok(with_colors.push(("target"@, ValModel::Str("stdout"@))))
                    } else if fields[3] == "e"@ {
                        Ok(with_colors.push(("target"@, ValModel::Str("stderr"@))))
                    } else if fields[3] == "o"@ {
                        Ok(with_colors.push(("target"@, ValModel::Str("stdout"@))))
                    } else {
                        Err(msg_invalid_target(fields[3]))
                    }
                } else {
                    if fields.len() < 3 {
                        Err("No filename has been specified"@)
                    } else {
                        let filename = fields[2];
                        let append = if fields.len() < 4 || fields[3] == "a"@ {
                            Some(true)
                        } else if fields[3] == "w"@ {
                            Some(false)
                        } else {
                            None
                        };
                        match append {
                            None => Err(msg_invalid_file_mode(fields[3])),
                            Some(ap) => {
                                let base3 = base.push(("filename"@, ValModel::Str(filename))).push(
                                    ("append"@, ValModel::Bool(ap)),
                                );
                                if fields.len() >= 5 {
                                    match spec_parse_i64(fields[4]) {
                                        Some(m) => Ok(
                                            base3.push(("max_file_size"@, ValModel::Int(m))),
                                        ),
                                        None => Ok(base3),
                                    }
                                } else {
                                    Ok(base3)
                                }
                            },
                        }
                    }
                }
            },
        }
    }
}

/// Whether an executable parse result carries exactly the specified outcome.
pub open spec fn outcome_matches(
    r: Result<ConfMap, ConfError>,
    o: Result<Seq<(Seq<char>, ValModel)>, Seq<char>>,
) -> bool {
    match r {
        Ok(m) => o is Ok && m@ == o->Ok_0,
        Err(e) => o is Err && e@ == o->Err_0,
    }
}

/// The canonical level name behind a field, as the executable parser reads
/// it.
fn level_token(t: &Vec<char>) -> (r: Option<&'static str>)
    ensures
        r is Some <==> spec_level_token(t@) is Some,
        r matches Some(n) ==> spec_level_token(t@) == Some(n@),
{
    proof {
        reveal_strlit("0");
        reveal_strlit("1");
        reveal_strlit("2");
        reveal_strlit("3");
        reveal_strlit("4");
        reveal_strlit("5");
        reveal_strlit("off");
        reveal_strlit("trace");
        reveal_strlit("debug");
        reveal_strlit("info");
        reveal_strlit("warn");
        reveal_strlit("error");
    }
    if chars_eq_str(t, "0") || chars_eq_str(t, "off") {
        Some("OFF")
    } else if chars_eq_str(t, "1") || chars_eq_str(t, "trace") {
        Some("TRACE")
    } else if chars_eq_str(t, "2") || chars_eq_str(t, "debug") {
        Some("DEBUG")
    } else if chars_eq_str(t, "3") || chars_eq_str(t, "info") {
        Some("INFO")
    } else if chars_eq_str(t, "4") || chars_eq_str(t, "warn") {
        Some("WARN")
    } else if chars_eq_str(t, "5") || chars_eq_str(t, "error") {
        Some("ERROR")
    } else {
        None
    }
}

/// An error whose message wraps the offending text between a fixed head and
/// tail.
fn err_around(head: &str, middle: &Vec<char>, tail: &str) -> (r: ConfError)
    ensures
        r@ == head@ + middle@ + tail@,
{
    let mut m = String::from_str(head);
    let mid = string_from_chars(middle);
    m.append(mid.as_str());
    m.append(tail);
    ConfError::new(m)
}

/// The color entries of a space-separated color field.
fn color_table(t: &Vec<char>) -> (r: Vec<(String, u64)>)
    ensures
        table_view(r@) == spec_color_table(t@),
{
    let pieces = split_chars(t, ' ');
    let ghost ps = pieces.deep_view();
    let mut r: Vec<(String, u64)> = Vec::new();
    let mut i: usize = 0;
    while i < pieces.len() && i < 5
        invariant
            i <= pieces@.len(),
            ps == pieces.deep_view(),
            ps.len() == pieces@.len(),
            spec_color_table(t@) == table_view(r@) + color_go(ps, i as int),
        decreases pieces@.len() - i,
    {
        let ghost before = table_view(r@);
        proof {
            assert(ps[i as int] == pieces@[i as int].deep_view());
            assert(pieces@[i as int].deep_view() =~= pieces@[i as int]@);
        }
        match parse_u8_chars(&pieces[i]) {
            Some(code) => {
                let name: &'static str = if i == 0 {
                    "ERROR"
                } else if i == 1 {
                    "WARN"
                } else if i == 2 {
                    "INFO"
                } else if i == 3 {
                    "DEBUG"
                } else {
                    "TRACE"
                };
                proof {
                    assert(name@ == level_name_at(i + 1));
                }
                r.push((String::from_str(name), code as u64));
                proof {
                    assert(table_view(r@) =~= before + seq![(name@, code as u64)]);
                    assert(before + (seq![(level_name_at(i as int + 1), code as u64)] + color_go(
                        ps,
                        i as int + 1,
                    )) =~= (before + seq![(level_name_at(i as int + 1), code as u64)]) + color_go(
                        ps,
                        i as int + 1,
                    ));
                }
            },
            None => {
            },
        }
        i = i + 1;
    }
    proof {
        assert(color_go(ps, i as int) =~= Seq::<(Seq<char>, u64)>::empty());
        assert(table_view(r@) + Seq::<(Seq<char>, u64)>::empty() =~= table_view(r@));
    }
    r
}

/// Parses a compact appender configuration string of comma-separated fields:
/// the kind, a level, and either a color list and target (console) or a
/// filename, mode and size bound (file).  The provenance argument is carried
/// for the caller's diagnostics and does not change the result.
pub fn appender_str_to_hashmap(conf: &str, origin: Option<&str>) -> (r: Result<ConfMap, ConfError>)
    ensures
        outcome_matches(r, spec_appender_parse(conf@)),
{
    let _ = origin;
    let chars = as_chars(conf);
    let raw = split_chars(&chars, ',');
    let mut fields: Vec<Vec<char>> = Vec::new();
    let mut i: usize = 0;
    while i < raw.len()
        invariant
            i <= raw@.len(),
            fields.deep_view() == Seq::new(i as nat, |j: int| spec_trim(raw.deep_view()[j])),
        decreases raw@.len() - i,
    {
        let ghost before = fields.deep_view();
        proof {
            assert(raw.deep_view()[i as int] == raw@[i as int].deep_view());
            assert(raw@[i as int].deep_view() =~= raw@[i as int]@);
        }
        let t = trim_chars(&raw[i]);
        let ghost tv = t@;
        fields.push(t);
        i = i + 1;
        proof {
            assert(fields.deep_view() =~~= before.push(tv));
            assert(before.push(tv) =~~= Seq::new(
                i as nat,
                |j: int| spec_trim(raw.deep_view()[j]),
            ));
        }
    }
    proof {
        assert(fields.deep_view() =~~= trimmed_fields(conf@));
    }
    let ghost fs = trimmed_fields(conf@);
    proof {
        assert(fields@.len() == fs.len());
        assert(forall|j: int| 0 <= j < fs.len() ==> fields@[j]@ =~= #[trigger] fs[j]);
    }
    proof {
        reveal_strlit("1");
        reveal_strlit("2");
        reveal_strlit("console");
        reveal_strlit("file");
        reveal_strlit("DEBUG");
    }
    let is_console = chars_eq_str(&fields[0], "1");
    let is_file = chars_eq_str(&fields[0], "2");
    if !is_console && !is_file {
        let e = err_around("Invalid appender type ", &fields[0], "");
        proof {
            reveal_strlit("");
            assert(e@ =~= msg_invalid_type(fs[0]));
        }
        return Err(e);
    }
    let lvlname: &'static str = if fields.len() < 2 {
        "DEBUG"
    } else {
        match level_token(&fields[1]) {
            Some(n) => n,
            None => {
                return Err(err_around("Invalid level \"", &fields[1], "\" specified"));
            },
        }
    };
    let mut map = ConfMap::new();
    map.insert(
        String::from_str("type"),
        ConfValue::Str(
            String::from_str(
                if is_console {
                    "console"
                } else {
                    "file"
                },
            ),
        ),
    );
    map.insert(String::from_str("level"), ConfValue::Str(String::from_str(lvlname)));
    let ghost base = seq![
        ("type"@, ValModel::Str(if fs[0] == "1"@ { "console"@ } else { "file"@ })),
        ("level"@, ValModel::Str(if fs.len() < 2 { "DEBUG"@ } else { spec_level_token(fs[1])->Some_0 })),
    ];
    proof {
        assert(map@ =~= base);
    }
    if is_console {
        if fields.len() >= 3 {
            let table = color_table(&fields[2]);
            map.insert(String::from_str("color_map"), ConfValue::Table(table));
        }
        proof {
            reveal_strlit("e");
            reveal_strlit("o");
            reveal_strlit("stdout");
            reveal_strlit("stderr");
        }
        if fields.len() < 4 {
            map.insert(String::from_str("target"), ConfValue::Str(String::from_str("stdout")));
            Ok(map)
        } else if chars_eq_str(&fields[3], "e") {
            map.insert(String::from_str("target"), ConfValue::Str(String::from_str("stderr")));
            Ok(map)
        } else if chars_eq_str(&fields[3], "o") {
            map.insert(String::from_str("target"), ConfValue::Str(String::from_str("stdout")));
            Ok(map)
        } else {
            Err(err_around("Invalid target \"", &fields[3], "\""))
        }
    } else {
        if fields.len() < 3 {
            return Err(ConfError::new(String::from_str("No filename has been specified")));
        }
        let filename = string_from_chars(&fields[2]);
        map.insert(String::from_str("filename"), ConfValue::Str(filename));
        proof {
            reveal_strlit("a");
            reveal_strlit("w");
        }
        let append: bool = if fields.len() < 4 || chars_eq_str(&fields[3], "a") {
            true
        } else if chars_eq_str(&fields[3], "w") {
            false
        } else {
            return Err(err_around("Invalid file mode \"", &fields[3], "\" specified"));
        };
        map.insert(String::from_str("append"), ConfValue::Bool(append));
        if fields.len() >= 5 {
            match parse_i64_chars(&fields[4]) {
                Some(m) => {
                    map.insert(String::from_str("max_file_size"), ConfValue::Int(m));
                },
                None => {
                },
            }
        }
        Ok(map)
    }
}

/// What parsing a compact logger configuration string returns: a level and a
/// non-empty list of lower-cased appender names, or the message rejecting
/// it.
pub open spec fn spec_logger_parse(s: Seq<char>) -> Result<Seq<(Seq<char>, ValModel)>, Seq<
    char,
>> {
    let fields = spec_split(s, ',');
    match spec_level_token(fields[0]) {
        None => Err(msg_invalid_level(fields[0])),
        Some(lvlname) => {
            if fields.len() < 2 {
                Err("Appender list is empty"@)
            } else {
                let names = kept_names(spec_split(fields[1], ' '), 0);
                if names.len() == 0 {
                    Err("Appender list is empty"@)
                } else {
                    Ok(
                        seq![
                            ("level"@, ValModel::Str(lvlname)),
                            ("appenders"@, ValModel::List(names)),
                        ],
                    )
                }
            }
        },
    }
}

/// The appender names kept from the space-separated pieces, beginning at
/// `i`: pieces that are only whitespace are passed over, the rest are folded
/// to lower case.
pub open spec fn kept_names(ps: Seq<Seq<char>>, i: int) -> Seq<Seq<char>>
    decreases ps.len() - i,
{
    if i >= ps.len() {
        Seq::empty()
    } else if spec_trim(ps[i]).len() == 0 {
        kept_names(ps, i + 1)
    } else {
        seq![spec_to_lower(ps[i])] + kept_names(ps, i + 1)
    }
}

/// Parses a compact logger configuration string: a level field, then a
/// space-separated appender list.  The provenance argument is carried for
/// the caller's diagnostics and does not change the result.
pub fn logger_str_to_hashmap(config: &str, origin: Option<&str>) -> (r: Result<ConfMap, ConfError>)
    ensures
        outcome_matches(r, spec_logger_parse(config@)),
{
    let _ = origin;
    let chars = as_chars(config);
    let fields = split_chars(&chars, ',');
    let ghost fs = spec_split(config@, ',');
    proof {
        assert(fields@[0].deep_view() =~= fields@[0]@);
    }
    let lvlname: &'static str = match level_token(&fields[0]) {
        Some(n) => n,
        None => {
            return Err(err_around("Invalid level \"", &fields[0], "\" specified"));
        },
    };
    if fields.len() < 2 {
        return Err(ConfError::new(String::from_str("Appender list is empty")));
    }
    proof {
        assert(fields@[1].deep_view() =~= fields@[1]@);
    }
    let pieces = split_chars(&fields[1], ' ');
    let ghost ps = pieces.deep_view();
    let mut names: Vec<String> = Vec::new();
    let mut i: usize = 0;
    while i < pieces.len()
        invariant
            i <= pieces@.len(),
            ps == pieces.deep_view(),
            ps.len() == pieces@.len(),
            kept_names(ps, 0) == list_view(names@) + kept_names(ps, i as int),
        decreases pieces@.len() - i,
    {
        let ghost before = list_view(names@);
        proof {
            assert(ps[i as int] == pieces@[i as int].deep_view());
            assert(pieces@[i as int].deep_view() =~= pieces@[i as int]@);
        }
        let trimmed = trim_chars(&pieces[i]);
        if trimmed.len() > 0 {
            let low = lower_chars(&pieces[i]);
            names.push(string_from_chars(&low));
            proof {
                assert(list_view(names@) =~= before + seq![spec_to_lower(ps[i as int])]);
                assert(before + (seq![spec_to_lower(ps[i as int])] + kept_names(ps, i as int + 1))
                    =~= (before + seq![spec_to_lower(ps[i as int])]) + kept_names(
                    ps,
                    i as int + 1,
                ));
            }
        }
        i = i + 1;
    }
    proof {
        assert(kept_names(ps, i as int) =~= Seq::<Seq<char>>::empty());
        assert(list_view(names@) + Seq::<Seq<char>>::empty() =~= list_view(names@));
    }
    if names.len() == 0 {
        return Err(ConfError::new(String::from_str("Appender list is empty")));
    }
    let mut map = ConfMap::new();
    map.insert(String::from_str("level"), ConfValue::Str(String::from_str(lvlname)));
    map.insert(String::from_str("appenders"), ConfValue::List(names));
    proof {
        assert(map@ =~= spec_logger_parse(config@)->Ok_0);
    }
    Ok(map)
}

/// The message for a missing appender kind.
pub open spec fn msg_missing_type() -> Seq<char> {
    "Missing mandatory config key \"type\" in appender"@
}

/// The message for a value that should have been text.
pub open spec fn msg_not_text() -> Seq<char> {
    "Config value is not text"@
}

/// The message for a value that should have been a truth value.
pub open spec fn msg_not_truth() -> Seq<char> {
    "Config value is not a truth value"@
}

/// The message for a value that should have been a list.
pub open spec fn msg_not_list() -> Seq<char> {
    "Config value is not a list"@
}

/// The message for a level name that names no level.
pub open spec fn msg_level_parse() -> Seq<char> {
    "attempted to convert a string that doesn't match an existing log level"@
}

/// The message for an appender kind that is neither file nor console.
pub open spec fn msg_invalid_type_value(t: Seq<char>) -> Seq<char> {
    "Invalid config value for key \"type\" in appender. Accepted values are \"file\" and \"console\", \""@
        + t + "\" passed."@
}

/// The message for a console target that is neither stream.
pub open spec fn msg_invalid_target_provided(t: Seq<char>) -> Seq<char> {
    "Invalid target provided. Accepted values are \"stdout\" and \"stderr\". \""@ + t
        + "\" passed."@
}

/// The rolling policy of a file appender.
#[derive(Debug, Clone, PartialEq)]
pub enum FilePolicy {
    /// Nothing is ever rolled.
    Nop,
    /// The file is rolled once it reaches `trigger` bytes, into numbered
    /// files named by `pattern`, keeping `window` of them.
    SizeRolled { trigger: u64, pattern: String, window: u32 },
}

/// The mathematical shape of a rolling policy.
pub enum FilePolicyModel {
    Nop,
    SizeRolled(u64, Seq<char>, u32),
}

impl View for FilePolicy {
    type V = FilePolicyModel;

    open spec fn view(&self) -> FilePolicyModel {
        match self {
            FilePolicy::Nop => FilePolicyModel::Nop,
            FilePolicy::SizeRolled { trigger, pattern, window } => FilePolicyModel::SizeRolled(
                *trigger,
                pattern@,
                *window,
            ),
        }
    }
}

/// The settings of a file appender: everything the configuration decides.
#[derive(Debug, Clone, PartialEq)]
pub struct FileAppenderConfig {
    pub filename: String,
    pub append: bool,
    pub policy: FilePolicy,
}

/// The mathematical shape of a file appender's settings.
#[verifier::ext_equal]
pub struct FileModel {
    pub filename: Seq<char>,
    pub append: bool,
    pub policy: FilePolicyModel,
}

impl View for FileAppenderConfig {
    type V = FileModel;

    open spec fn view(&self) -> FileModel {
        FileModel { filename: self.filename@, append: self.append, policy: self.policy@ }
    }
}

/// An appender as the configuration describes it.
#[derive(Debug, Clone, PartialEq)]
pub enum AppenderConfig {
    Console(ConsoleAppenderBuilder),
    File(FileAppenderConfig),
}

/// The mathematical shape of a configured appender.
pub enum AppenderModel {
    Console(BuilderModel),
    File(FileModel),
}

impl View for AppenderConfig {
    type V = AppenderModel;

    open spec fn view(&self) -> AppenderModel {
        match self {
            AppenderConfig::Console(b) => AppenderModel::Console(b@),
            AppenderConfig::File(f) => AppenderModel::File(f@),
        }
    }
}

/// The threshold a console section asks for: absent means the default, text
/// is parsed as a level name, anything else is rejected.
pub open spec fn spec_console_level(m: Seq<(Seq<char>, ValModel)>) -> Result<Level, Seq<char>> {
    match map_get(m, "level"@) {
        None => Ok(Level::Debug),
        Some(v) => match v {
            ValModel::Str(s) => match spec_level_from_str(s) {
                Some(l) => Ok(l),
                None => Err(msg_level_parse()),
            },
            _ => Err(msg_not_text()),
        },
    }
}

/// The styles a color table assigns, beginning at entry `i`: entries whose
/// name is no level or whose code does not fit a color are passed over.
pub open spec fn styles_go(t: Seq<(Seq<char>, u64)>, i: int) -> Seq<(Level, u8)>
    decreases t.len() - i,
{
    if i < 0 || i >= t.len() {
        Seq::empty()
    } else {
        match spec_level_from_str(t[i].0) {
            Some(l) => if t[i].1 <= 255 {
                seq![(l, t[i].1 as u8)] + styles_go(t, i + 1)
            } else {
                styles_go(t, i + 1)
            },
            None => styles_go(t, i + 1),
        }
    }
}

/// The styles a console section assigns: its color table's valid entries,
/// in order; no table assigns nothing.
pub open spec fn spec_console_styles(m: Seq<(Seq<char>, ValModel)>) -> Seq<(Level, u8)> {
    match map_get(m, "color_map"@) {
        Some(v) => match v {
            ValModel::Table(t) => styles_go(t, 0),
            _ => Seq::empty(),
        },
        None => Seq::empty(),
    }
}

/// The stream a console section asks for: absent or non-text means the
/// default, text must name one of the two streams, case-insensitively.
pub open spec fn spec_console_target(m: Seq<(Seq<char>, ValModel)>) -> Result<Target, Seq<char>> {
    match map_get(m, "target"@) {
        None => Ok(Target::Stdout),
        Some(v) => match v {
            ValModel::Str(s) => {
                let t = spec_to_lower(s);
                if t == "stdout"@ {
                    Ok(Target::Stdout)
                } else if t == "stderr"@ {
                    Ok(Target::Stderr)
                } else {
                    Err(msg_invalid_target_provided(t))
                }
            },
            _ => Ok(Target::Stdout),
        },
    }
}

/// What a console section builds: threshold, styles and stream, or the
/// first rejection, the threshold checked before the stream.
pub open spec fn spec_console_from_map(m: Seq<(Seq<char>, ValModel)>) -> Result<
    BuilderModel,
    Seq<char>,
> {
    match spec_console_level(m) {
        Err(e) => Err(e),
        Ok(l) => match spec_console_target(m) {
            Err(e) => Err(e),
            Ok(tg) => Ok(
                BuilderModel {
                    log_level: l,
                    target: tg,
                    level_styles: spec_console_styles(m),
                    tty_only: false,
                },
            ),
        },
    }
}

/// The place of the last occurrence of `c` in `s`, or a place before the
/// text when there is none.
pub open spec fn spec_rfind(s: Seq<char>, c: char) -> int
    decreases s.len(),
{
    if s.len() == 0 {
        -1
    } else if s.last() == c {
        s.len() - 1
    } else {
        spec_rfind(s.drop_last(), c)
    }
}

/// The stem and extension of a file name: its last path component split at
/// the last dot, a dot in first place counting as part of the stem; without
/// a dot the default extension is used.  A name without a last component
/// has neither.
pub open spec fn spec_file_stem_ext(f: Seq<char>) -> Option<(Seq<char>, Seq<char>)> {
    let comp = f.subrange(spec_rfind(f, '/') + 1, f.len() as int);
    if comp.len() == 0 || comp == "."@ || comp == ".."@ {
        None
    } else {
        let d = spec_rfind(comp, '.');
        if d > 0 {
            Some((comp.subrange(0, d), comp.subrange(d + 1, comp.len() as int)))
        } else {
            Some((comp, "log"@))
        }
    }
}

/// The roll pattern written from a stem and an extension: the stem, a
/// numbered place, the extension.
pub open spec fn spec_pattern(stem: Seq<char>, ext: Seq<char>) -> Seq<char> {
    stem + ".{}."@ + ext
}

/// How many rolled files a size-rolling policy keeps.
pub open spec fn roll_window() -> u32 {
    10
}

/// The rolling policy a file section asks for: a size bound that is a
/// non-negative number rolls at that size; anything else rolls nothing.
pub open spec fn spec_file_policy(f: Seq<char>, m: Seq<(Seq<char>, ValModel)>) -> Result<
    FilePolicyModel,
    Seq<char>,
> {
    match map_get(m, "max_file_size"@) {
        Some(v) => match v {
            ValModel::Int(i) => if i >= 0 {
                match spec_file_stem_ext(f) {
                    None => Err("Invalid filename provided"@),
                    Some(se) => Ok(
                        FilePolicyModel::SizeRolled(i as u64, spec_pattern(se.0, se.1),
                            roll_window()),
                    ),
                }
            } else {
                Ok(FilePolicyModel::Nop)
            },
            _ => Ok(FilePolicyModel::Nop),
        },
        None => Ok(FilePolicyModel::Nop),
    }
}

/// What a file section builds: filename, write mode and rolling policy, or
/// the first rejection; the filename is checked first, then the mode.
pub open spec fn spec_file_from_map(m: Seq<(Seq<char>, ValModel)>) -> Result<FileModel, Seq<
    char,
>> {
    match map_get(m, "filename"@) {
        None => Err("No filename has been provided for appender"@),
        Some(fv) => match fv {
            ValModel::Str(f) => {
                let append = match map_get(m, "append"@) {
                    None => Ok(true),
                    Some(av) => match av {
                        ValModel::Bool(b) => Ok(b),
                        _ => Err(msg_not_truth()),
                    },
                };
                match append {
                    Err(e) => Err(e),
                    Ok(ap) => match spec_file_policy(f, m) {
                        Err(e) => Err(e),
                        Ok(p) => Ok(FileModel { filename: f, append: ap, policy: p }),
                    },
                }
            },
            _ => Err(msg_not_text()),
        },
    }
}

/// What an appender section builds, by its kind field.
pub open spec fn spec_appender_from_map(m: Seq<(Seq<char>, ValModel)>) -> Result<
    AppenderModel,
    Seq<char>,
> {
    match map_get(m, "type"@) {
        None => Err(msg_missing_type()),
        Some(tv) => match tv {
            ValModel::Str(s) => {
                let t = spec_to_lower(s);
                if t == "console"@ {
                    match spec_console_from_map(m) {
                        Ok(b) => Ok(AppenderModel::Console(b)),
                        Err(e) => Err(e),
                    }
                } else if t == "file"@ {
                    match spec_file_from_map(m) {
                        Ok(f) => Ok(AppenderModel::File(f)),
                        Err(e) => Err(e),
                    }
                } else {
                    Err(msg_invalid_type_value(t))
                }
            },
            _ => Err(msg_not_text()),
        },
    }
}

/// Whether an executable appender result carries exactly the specified
/// outcome.
pub open spec fn appender_outcome_matches(
    r: Result<AppenderConfig, ConfError>,
    o: Result<AppenderModel, Seq<char>>,
) -> bool {
    match r {
        Ok(a) => o is Ok && a@ == o->Ok_0,
        Err(e) => o is Err && e@ == o->Err_0,
    }
}

/// The last place of `c` in `v`, if it occurs.
fn rfind_char(v: &Vec<char>, c: char) -> (r: Option<usize>)
    ensures
        match r {
            Some(j) => spec_rfind(v@, c) == j as int && j < v@.len(),
            None => spec_rfind(v@, c) == -1,
        },
{
    let mut i: usize = v.len();
    proof {
        assert(v@.subrange(0, i as int) =~= v@);
    }
    while i > 0
        invariant
            i <= v@.len(),
            spec_rfind(v@.subrange(0, i as int), c) == spec_rfind(v@, c),
        decreases i,
    {
        let ghost before = v@.subrange(0, i as int);
        i = i - 1;
        proof {
            assert(before.drop_last() =~= v@.subrange(0, i as int));
        }
        if v[i] == c {
            return Some(i);
        }
    }
    proof {
        assert(v@.subrange(0, 0) =~= Seq::<char>::empty());
    }
    None
}

/// Builds a console appender from a keyed section: an optional level, an
/// optional color table and an optional target.
pub fn hashmap_console_to_appender(config: &ConfMap) -> (r: Result<AppenderConfig, ConfError>)
    ensures
        appender_outcome_matches(
            r,
            match spec_console_from_map(config@) {
                Ok(b) => Ok(AppenderModel::Console(b)),
                Err(e) => Err(e),
            },
        ),
{
    let mut builder = ConsoleAppender::builder();
    match config.get("level") {
        Some(v) => match v {
            ConfValue::Str(s) => match Level::from_str(s.as_str()) {
                Some(l) => {
                    builder = builder.log_level(l);
                },
                None => {
                    return Err(
                        ConfError::new(
                            String::from_str(
                                "attempted to convert a string that doesn't match an existing log level",
                            ),
                        ),
                    );
                },
            },
            _ => {
                return Err(ConfError::new(String::from_str("Config value is not text")));
            },
        },
        None => {
            builder = builder.log_level(Level::Debug);
        },
    }
    match config.get("color_map") {
        Some(v) => match v {
            ConfValue::Table(t) => {
                let ghost tv = table_view(t@);
                let mut i: usize = 0;
                while i < t.len()
                    invariant
                        i <= t@.len(),
                        tv == table_view(t@),
                        tv.len() == t@.len(),
                        builder@.level_styles + styles_go(tv, i as int) == spec_console_styles(
                            config@,
                        ),
                        spec_console_level(config@) == Ok::<Level, Seq<char>>(builder@.log_level),
                        builder@.target == Target::Stdout,
                        builder@.tty_only == false,
                    decreases t@.len() - i,
                {
                    let ghost st_before = builder@.level_styles;
                    let (name, code) = &t[i];
                    proof {
                        assert(tv[i as int] == (t@[i as int].0@, t@[i as int].1));
                    }
                    match Level::from_str(name.as_str()) {
                        Some(l) => {
                            if *code <= 255 {
                                let c8: u8 = (*code) as u8;
                                builder = builder.set_level_style(l, c8);
                                proof {
                                    assert(st_before + (seq![(l, c8)] + styles_go(
                                        tv,
                                        i as int + 1,
                                    )) =~= (st_before.push((l, c8))) + styles_go(
                                        tv,
                                        i as int + 1,
                                    ));
                                }
                            }
                        },
                        None => {
                        },
                    }
                    i = i + 1;
                }
                proof {
                    assert(styles_go(tv, i as int) =~= Seq::<(Level, u8)>::empty());
                    assert(builder@.level_styles + Seq::<(Level, u8)>::empty()
                        =~= builder@.level_styles);
                }
            },
            _ => {
                proof {
                    assert(builder@.level_styles + Seq::<(Level, u8)>::empty()
                        =~= builder@.level_styles);
                }
            },
        },
        None => {
            proof {
                assert(builder@.level_styles + Seq::<(Level, u8)>::empty()
                    =~= builder@.level_styles);
            }
        },
    }
    match config.get("target") {
        Some(v) => match v {
            ConfValue::Str(s) => {
                let sc = as_chars(s.as_str());
                let low = lower_chars(&sc);
                proof {
                    reveal_strlit("stdout");
                    reveal_strlit("stderr");
                }
                if chars_eq_str(&low, "stdout") {
                    builder = builder.target(Target::Stdout);
                } else if chars_eq_str(&low, "stderr") {
                    builder = builder.target(Target::Stderr);
                } else {
                    return Err(
                        err_around(
                            "Invalid target provided. Accepted values are \"stdout\" and \"stderr\". \"",
                            &low,
                            "\" passed.",
                        ),
                    );
                }
            },
            _ => {
                builder = builder.target(Target::Stdout);
            },
        },
        None => {
        },
    }
    proof {
        assert(builder@ =~= spec_console_from_map(config@)->Ok_0);
    }
    Ok(AppenderConfig::Console(builder))
}

/// Builds a file appender from a keyed section: a filename, a write mode
/// and an optional size bound that turns on rolling.
pub fn hashmap_file_to_appender(config: &ConfMap) -> (r: Result<AppenderConfig, ConfError>)
    ensures
        appender_outcome_matches(
            r,
            match spec_file_from_map(config@) {
                Ok(f) => Ok(AppenderModel::File(f)),
                Err(e) => Err(e),
            },
        ),
{
    let filename: String = match config.get("filename") {
        None => {
            return Err(
                ConfError::new(String::from_str("No filename has been provided for appender")),
            );
        },
        Some(v) => match v {
            ConfValue::Str(s) => s.clone(),
            _ => {
                return Err(ConfError::new(String::from_str("Config value is not text")));
            },
        },
    };
    let append: bool = match config.get("append") {
        None => true,
        Some(v) => match v {
            ConfValue::Bool(b) => *b,
            _ => {
                return Err(ConfError::new(String::from_str("Config value is not a truth value")));
            },
        },
    };
    let max_size: Option<u64> = match config.get("max_file_size") {
        Some(v) => match v {
            ConfValue::Int(i) => if *i >= 0 {
                Some((*i) as u64)
            } else {
                None
            },
            _ => None,
        },
        None => None,
    };
    let policy: FilePolicy = match max_size {
        None => FilePolicy::Nop,
        Some(sz) => {
            let fv = as_chars(filename.as_str());
            let start: usize = match rfind_char(&fv, '/') {
                Some(j) => {
                    proof {
                        assert(j < fv.len());
                    }
                    j + 1
                },
                None => 0,
            };
            let mut comp: Vec<char> = Vec::new();
            let mut i: usize = start;
            while i < fv.len()
                invariant
                    start <= i <= fv@.len(),
                    comp@ == fv@.subrange(start as int, i as int),
                decreases fv@.len() - i,
            {
                comp.push(fv[i]);
                i = i + 1;
                proof {
                    assert(comp@ =~= fv@.subrange(start as int, i as int));
                }
            }
            proof {
                assert(comp@ =~= fv@.subrange(
                    spec_rfind(fv@, '/') + 1,
                    fv@.len() as int,
                ));
                reveal_strlit(".");
                reveal_strlit("..");
            }
            if comp.len() == 0 || chars_eq_str(&comp, ".") || chars_eq_str(&comp, "..") {
                return Err(ConfError::new(String::from_str("Invalid filename provided")));
            }
            let dot: usize = match rfind_char(&comp, '.') {
                Some(d) => d,
                None => 0,
            };
            let mut pattern: Vec<char> = Vec::new();
            if dot > 0 {
                let mut k: usize = 0;
                while k < dot
                    invariant
                        k <= dot <= comp@.len(),
                        pattern@ == comp@.subrange(0, k as int),
                    decreases dot - k,
                {
                    pattern.push(comp[k]);
                    k = k + 1;
                    proof {
                        assert(pattern@ =~= comp@.subrange(0, k as int));
                    }
                }
                pattern.push('.');
                pattern.push('{');
                pattern.push('}');
                pattern.push('.');
                let mut k2: usize = dot + 1;
                let ghost mid = pattern@;
                while k2 < comp.len()
                    invariant
                        dot + 1 <= k2 <= comp@.len(),
                        pattern@ == mid + comp@.subrange(dot + 1, k2 as int),
                    decreases comp@.len() - k2,
                {
                    pattern.push(comp[k2]);
                    k2 = k2 + 1;
                    proof {
                        assert(pattern@ =~= mid + comp@.subrange(dot + 1, k2 as int));
                    }
                }
                proof {
                    reveal_strlit(".{}.");
                    assert(pattern@ =~= spec_pattern(
                        comp@.subrange(0, dot as int),
                        comp@.subrange(dot + 1, comp@.len() as int),
                    ));
                }
            } else {
                let mut k: usize = 0;
                while k < comp.len()
                    invariant
                        k <= comp@.len(),
                        pattern@ == comp@.subrange(0, k as int),
                    decreases comp@.len() - k,
                {
                    pattern.push(comp[k]);
                    k = k + 1;
                    proof {
                        assert(pattern@ =~= comp@.subrange(0, k as int));
                    }
                }
                pattern.push('.');
                pattern.push('{');
                pattern.push('}');
                pattern.push('.');
                pattern.push('l');
                pattern.push('o');
                pattern.push('g');
                proof {
                    assert(comp@.subrange(0, comp@.len() as int) =~= comp@);
                    reveal_strlit(".{}.");
                    reveal_strlit("log");
                    assert(pattern@ =~= spec_pattern(comp@, "log"@));
                }
            }
            FilePolicy::SizeRolled {
                trigger: sz,
                pattern: string_from_chars(&pattern),
                window: 10,
            }
        },
    };
    let r = FileAppenderConfig { filename, append, policy };
    proof {
        assert(r@ =~= spec_file_from_map(config@)->Ok_0);
    }
    Ok(AppenderConfig::File(r))
}

/// Builds an appender from a keyed section, by its kind field.
pub fn hashmap_to_appender(config: &ConfMap) -> (r: Result<AppenderConfig, ConfError>)
    ensures
        appender_outcome_matches(r, spec_appender_from_map(config@)),
{
    let ty: String = match config.get("type") {
        None => {
            return Err(
                ConfError::new(
                    String::from_str("Missing mandatory config key \"type\" in appender"),
                ),
            );
        },
        Some(v) => match v {
            ConfValue::Str(s) => s.clone(),
            _ => {
                return Err(ConfError::new(String::from_str("Config value is not text")));
            },
        },
    };
    let tc = as_chars(ty.as_str());
    let low = lower_chars(&tc);
    proof {
        reveal_strlit("console");
        reveal_strlit("file");
    }
    if chars_eq_str(&low, "console") {
        hashmap_console_to_appender(config)
    } else if chars_eq_str(&low, "file") {
        hashmap_file_to_appender(config)
    } else {
        Err(
            err_around(
                "Invalid config value for key \"type\" in appender. Accepted values are \"file\" and \"console\", \"",
                &low,
                "\" passed.",
            ),
        )
    }
}

/// A logger: a name, a threshold, and the appenders it writes to.
#[derive(Debug, Clone, PartialEq)]
pub struct Logger {
    pub name: String,
    pub level: LevelFilter,
    pub appenders: Vec<String>,
}

/// The mathematical shape of a logger.
#[verifier::ext_equal]
pub struct LoggerModel {
    pub name: Seq<char>,
    pub level: LevelFilter,
    pub appenders: Seq<Seq<char>>,
}

impl View for Logger {
    type V = LoggerModel;

    open spec fn view(&self) -> LoggerModel {
        LoggerModel { name: self.name@, level: self.level, appenders: list_view(self.appenders@) }
    }
}

/// What a logger section builds: a threshold and a non-empty appender list,
/// each name trimmed and folded to lower case; the threshold is checked
/// first.
pub open spec fn spec_logger_from_map(name: Seq<char>, m: Seq<(Seq<char>, ValModel)>) -> Result<
    LoggerModel,
    Seq<char>,
> {
    let level = match map_get(m, "level"@) {
        None => Ok(LevelFilter::Debug),
        Some(v) => match v {
            ValModel::Str(s) => match spec_levelfilter_from_str(s) {
                Some(l) => Ok(l),
                None => Err(msg_level_parse()),
            },
            _ => Err(msg_not_text()),
        },
    };
    match level {
        Err(e) => Err(e),
        Ok(lf) => match map_get(m, "appenders"@) {
            None => Err("Missing mandatory appenders"@),
            Some(v) => match v {
                ValModel::List(l) => if l.len() == 0 {
                    Err("Appender list is empty"@)
                } else {
                    Ok(
                        LoggerModel {
                            name,
                            level: lf,
                            appenders: Seq::new(
                                l.len(),
                                |i: int| spec_to_lower(spec_trim(l[i])),
                            ),
                        },
                    )
                },
                _ => Err(msg_not_list()),
            },
        },
    }
}

/// Whether an executable logger result carries exactly the specified
/// outcome.
pub open spec fn logger_outcome_matches(
    r: Result<Logger, ConfError>,
    o: Result<LoggerModel, Seq<char>>,
) -> bool {
    match r {
        Ok(l) => o is Ok && l@ == o->Ok_0,
        Err(e) => o is Err && e@ == o->Err_0,
    }
}

/// Builds a logger from a keyed section: an optional threshold and a
/// mandatory, non-empty appender list.
pub fn hashmap_to_logger(name: &str, config: &ConfMap) -> (r: Result<Logger, ConfError>)
    ensures
        logger_outcome_matches(r, spec_logger_from_map(name@, config@)),
{
    let level: LevelFilter = match config.get("level") {
        None => LevelFilter::Debug,
        Some(v) => match v {
            ConfValue::Str(s) => match LevelFilter::from_str(s.as_str()) {
                Some(l) => l,
                None => {
                    return Err(
                        ConfError::new(
                            String::from_str(
                                "attempted to convert a string that doesn't match an existing log level",
                            ),
                        ),
                    );
                },
            },
            _ => {
                return Err(ConfError::new(String::from_str("Config value is not text")));
            },
        },
    };
    let names: &Vec<String> = match config.get("appenders") {
        None => {
            return Err(ConfError::new(String::from_str("Missing mandatory appenders")));
        },
        Some(v) => match v {
            ConfValue::List(l) => l,
            _ => {
                return Err(ConfError::new(String::from_str("Config value is not a list")));
            },
        },
    };
    if names.len() == 0 {
        return Err(ConfError::new(String::from_str("Appender list is empty")));
    }
    let ghost lv = list_view(names@);
    let mut appenders: Vec<String> = Vec::new();
    let mut i: usize = 0;
    while i < names.len()
        invariant
            i <= names@.len(),
            lv == list_view(names@),
            lv.len() == names@.len(),
            list_view(appenders@) == Seq::new(i as nat, |j: int| spec_to_lower(spec_trim(lv[j]))),
        decreases names@.len() - i,
    {
        let ghost before = list_view(appenders@);
        proof {
            assert(lv[i as int] == names@[i as int]@);
        }
        let nc = as_chars(names[i].as_str());
        let trimmed = trim_chars(&nc);
        let low = lower_chars(&trimmed);
        let ghost lw = low@;
        appenders.push(string_from_chars(&low));
        i = i + 1;
        proof {
            assert(list_view(appenders@) =~= before.push(lw));
            assert(before.push(lw) =~= Seq::new(
                i as nat,
                |j: int| spec_to_lower(spec_trim(lv[j])),
            ));
        }
    }
    let r = Logger { name: String::from_str(name), level, appenders };
    proof {
        assert(r@ =~= spec_logger_from_map(name@, config@)->Ok_0);
    }
    Ok(r)
}

} // verus!
