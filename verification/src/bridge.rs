//! Calls from a web page into Java: the registered interfaces, choosing the
//! method that a call means, and planning its arguments.

use serde_json::Value;
use vstd::prelude::*;

use crate::json;
use crate::json::JsonKind;
use crate::text;

verus! {

/// How an argument is handed to Java.
#[derive(Debug, Clone, Copy, PartialEq, Eq, Structural)]
pub enum ArgKind {
    Str,
    IntBox,
    LongBox,
    ShortBox,
    ByteBox,
    FloatBox,
    DoubleBox,
    BoolBox,
    Null,
    /// The value does not fit the parameter.
    Reject,
}

/// Whether a type of Java is primitive.
pub open spec fn is_primitive(p: Seq<char>) -> bool {
    p == "int"@ || p == "long"@ || p == "short"@ || p == "byte"@ || p == "float"@ || p == "double"@
        || p == "boolean"@ || p == "char"@
}

/// How a number is handed to a parameter.
pub open spec fn number_arg(p: Seq<char>) -> ArgKind {
    if p == "int"@ || p == "java.lang.Integer"@ {
        ArgKind::IntBox
    } else if p == "long"@ || p == "java.lang.Long"@ {
        ArgKind::LongBox
    } else if p == "short"@ || p == "java.lang.Short"@ {
        ArgKind::ShortBox
    } else if p == "byte"@ || p == "java.lang.Byte"@ {
        ArgKind::ByteBox
    } else if p == "float"@ || p == "java.lang.Float"@ {
        ArgKind::FloatBox
    } else if p == "double"@ || p == "java.lang.Double"@ || p == "java.lang.Number"@ || p
        == "java.lang.Object"@ {
        ArgKind::DoubleBox
    } else {
        ArgKind::Reject
    }
}

/// How a value of a kind is handed to a parameter of a type.
pub open spec fn arg_kind(kind: JsonKind, p: Seq<char>) -> ArgKind {
    match kind {
        JsonKind::Null => if is_primitive(p) {
            ArgKind::Reject
        } else {
            ArgKind::Null
        },
        JsonKind::Text => if p == "java.lang.String"@ || p == "java.lang.CharSequence"@ || p
            == "java.lang.Object"@ {
            ArgKind::Str
        } else {
            ArgKind::Reject
        },
        JsonKind::Bool => if p == "boolean"@ || p == "java.lang.Boolean"@ || p
            == "java.lang.Object"@ {
            ArgKind::BoolBox
        } else {
            ArgKind::Reject
        },
        JsonKind::Number => number_arg(p),
        JsonKind::Array => ArgKind::Reject,
        JsonKind::Object => ArgKind::Reject,
    }
}

/// How a value of a kind is handed to a parameter of a type.
pub fn plan_kind(kind: JsonKind, param_type: &str) -> (plan: ArgKind)
    ensures
        plan == arg_kind(kind, param_type@),
{
    let p = text::chars_of(param_type);
    match kind {
        JsonKind::Null => {
            if is(&p, "int") || is(&p, "long") || is(&p, "short") || is(&p, "byte") || is(
                &p,
                "float",
            ) || is(&p, "double") || is(&p, "boolean") || is(&p, "char") {
                ArgKind::Reject
            } else {
                ArgKind::Null
            }
        },
        JsonKind::Text => {
            if is(&p, "java.lang.String") || is(&p, "java.lang.CharSequence") || is(
                &p,
                "java.lang.Object",
            ) {
                ArgKind::Str
            } else {
                ArgKind::Reject
            }
        },
        JsonKind::Bool => {
            if is(&p, "boolean") || is(&p, "java.lang.Boolean") || is(&p, "java.lang.Object") {
                ArgKind::BoolBox
            } else {
                ArgKind::Reject
            }
        },
        JsonKind::Number => {
            if is(&p, "int") || is(&p, "java.lang.Integer") {
                ArgKind::IntBox
            } else if is(&p, "long") || is(&p, "java.lang.Long") {
                ArgKind::LongBox
            } else if is(&p, "short") || is(&p, "java.lang.Short") {
                ArgKind::ShortBox
            } else if is(&p, "byte") || is(&p, "java.lang.Byte") {
                ArgKind::ByteBox
            } else if is(&p, "float") || is(&p, "java.lang.Float") {
                ArgKind::FloatBox
            } else if is(&p, "double") || is(&p, "java.lang.Double") || is(&p, "java.lang.Number")
                || is(&p, "java.lang.Object") {
                ArgKind::DoubleBox
            } else {
                ArgKind::Reject
            }
        },
        JsonKind::Array | JsonKind::Object => ArgKind::Reject,
    }
}

fn is(chars: &[char], name: &str) -> (b: bool)
    ensures
        b == (chars@ == name@),
{
    let name = text::chars_of(name);
    text::same(chars, &name)
}

/// How a value is handed to a parameter of a type.
pub fn plan_arg(value: &Value, param_type: &str) -> (plan: ArgKind)
    ensures
        plan == arg_kind(json::json_kind(json::json_text(*value)), param_type@),
{
    plan_kind(json::value_kind(value), param_type)
}

/// The length of a text in UTF-8.
pub open spec fn byte_len(s: Seq<char>) -> usize {
    vstd::utf8::encode_utf8(s).len() as usize
}

/// The lengths of the JSON texts of values, for a log that must not show them.
pub fn bridge_arg_lens(args: &[Value]) -> (lens: Vec<usize>)
    ensures
        lens@.len() == args@.len(),
        forall|i: int|
            0 <= i < args@.len() ==> #[trigger] lens@[i] == byte_len(json::json_text(args@[i])),
        forall|i: int|
            0 <= i < args@.len() ==> #[trigger] lens@[i] == vstd::utf8::encode_utf8(
                json::json_text(args@[i]),
            ).len() as usize,
{
    let mut lens: Vec<usize> = Vec::new();
    let mut i: usize = 0;
    while i < args.len()
        invariant
            i <= args@.len(),
            lens@.len() == i,
            forall|j: int|
                0 <= j < i ==> #[trigger] lens@[j] == byte_len(json::json_text(args@[j])),
        decreases args@.len() - i,
    {
        let json = json::value_text(&args[i]);
        lens.push(json.as_str().len());
        i += 1;
    }
    lens
}

/// Whether a character can begin a Java identifier, as far as the log goes.
pub open spec fn is_identifier_start(c: char) -> bool {
    'a' <= c <= 'z' || 'A' <= c <= 'Z' || c == '_' || c == '$'
}

/// Whether a character can go on a Java identifier, as far as the log goes.
pub open spec fn is_identifier_part(c: char) -> bool {
    is_identifier_start(c) || text::is_digit(c)
}

/// Whether a text is shaped like an identifier of at most 64 characters.
pub open spec fn is_identifier(s: Seq<char>) -> bool {
    1 <= s.len() <= 64 && is_identifier_start(s[0]) && forall|i: int|
        1 <= i < s.len() ==> is_identifier_part(#[trigger] s[i])
}

/// A name that a page gave, for the log: the name itself where it is shaped like
/// an identifier, else a fixed mark, so that nothing else of the page's making is
/// logged.
pub fn bridge_identifier_for_log(s: &str) -> (shown: &str)
    ensures
        shown@ == (if is_identifier(s@) {
            s@
        } else {
            "<non-identifier>"@
        }),
        shown@ == s@ || shown@ == "<non-identifier>"@,
        ({
            let letter = |c: char| 'a' <= c <= 'z' || 'A' <= c <= 'Z' || c == '_' || c == '$';
            let plain = 1 <= s@.len() <= 64 && letter(s@[0]) && forall|i: int|
                1 <= i < s@.len() ==> letter(#[trigger] s@[i]) || '0' <= s@[i] <= '9';
            &&& plain ==> shown@ == s@
            &&& !plain ==> shown@ == "<non-identifier>"@
        }),
{
    let chars = text::chars_of(s);
    let n: usize = chars.len();
    if n == 0 || n > 64 {
        return "<non-identifier>";
    }
    let mut i: usize = 0;
    while i < n
        invariant
            i <= n,
            n == chars@.len(),
            chars@ == s@,
            1 <= n <= 64,
            i >= 1 ==> is_identifier_start(chars@[0]),
            forall|j: int| 1 <= j < i ==> is_identifier_part(#[trigger] chars@[j]),
        decreases n - i,
    {
        let c: char = chars[i];
        let letter = ('a' <= c && c <= 'z') || ('A' <= c && c <= 'Z') || c == '_' || c == '$';
        let digit = '0' <= c && c <= '9';
        if !letter && (i == 0 || !digit) {
            assert(i >= 1 ==> !is_identifier_part(chars@[i as int]));
            return "<non-identifier>";
        }
        i += 1;
    }
    s
}

/// The first of the methods that takes a number of arguments.
pub open spec fn first_of_arity(arities: Seq<usize>, argc: usize) -> Option<int>
    decreases arities.len(),
{
    if arities.len() == 0 {
        None
    } else if arities[0] == argc {
        Some(0)
    } else {
        match first_of_arity(arities.skip(1), argc) {
            Some(i) => Some(i + 1),
            None => None,
        }
    }
}

/// The first of the methods that takes a number of arguments, by the numbers that
/// they take.
pub fn select_overload_index(arities: &[usize], argc: usize) -> (index: Option<usize>)
    ensures
        match index {
            Some(i) => i < arities@.len() && first_of_arity(arities@, argc) == Some(i as int),
            None => first_of_arity(arities@, argc) is None,
        },
        match index {
            Some(i) => i < arities@.len() && arities@[i as int] == argc && forall|j: int|
                0 <= j < i ==> #[trigger] arities@[j] != argc,
            None => forall|j: int| 0 <= j < arities@.len() ==> #[trigger] arities@[j] != argc,
        },
{
    let mut i: usize = 0;
    assert(arities@.skip(0) =~= arities@);
    while i < arities.len()
        invariant
            i <= arities@.len(),
            forall|j: int| 0 <= j < i ==> #[trigger] arities@[j] != argc,
            first_of_arity(arities@, argc) == (match first_of_arity(
                arities@.skip(i as int),
                argc,
            ) {
                Some(k) => Some(k + i),
                None => None,
            }),
        decreases arities@.len() - i,
    {
        assert(arities@.skip(i as int)[0] == arities@[i as int]);
        if arities[i] == argc {
            return Some(i);
        }
        assert(arities@.skip(i as int).skip(1) =~= arities@.skip(i + 1));
        i += 1;
    }
    None
}

/// A method of a bridged object: `method` refers to it, the types are named as
/// Java names them.
pub struct BridgeMethodMeta<O> {
    pub method: O,
    pub param_types: Vec<String>,
    pub return_type: String,
}

/// The methods of a bridged object that share a name.
pub struct BridgeMethods<O> {
    pub name: String,
    pub overloads: Vec<BridgeMethodMeta<O>>,
}

/// The methods of a name among those of an object.
pub open spec fn methods_named<O>(methods: Seq<BridgeMethods<O>>, name: Seq<char>) -> Option<int>
    decreases methods.len(),
{
    if methods.len() == 0 {
        None
    } else if methods[0].name@ == name {
        Some(0)
    } else {
        match methods_named(methods.skip(1), name) {
            Some(i) => Some(i + 1),
            None => None,
        }
    }
}

fn find_methods<O>(methods: &Vec<BridgeMethods<O>>, name: &str) -> (at: Option<usize>)
    ensures
        match at {
            Some(i) => i < methods@.len() && methods_named(methods@, name@) == Some(i as int)
                && methods@[i as int].name@ == name@,
            None => methods_named(methods@, name@) is None,
        },
        forall|k: int|
            0 <= k < methods@.len() && (at matches Some(i) ==> k < i) ==> (
            #[trigger] methods@[k]).name@ != name@,
{
    let mut i: usize = 0;
    assert(methods@.skip(0) =~= methods@);
    while i < methods.len()
        invariant
            i <= methods@.len(),
            forall|k: int| 0 <= k < i ==> (#[trigger] methods@[k]).name@ != name@,
            methods_named(methods@, name@) == (match methods_named(methods@.skip(i as int), name@) {
                Some(k) => Some(k + i),
                None => None,
            }),
        decreases methods@.len() - i,
    {
        assert(methods@.skip(i as int)[0] == methods@[i as int]);
        if text::same_str(methods[i].name.as_str(), name) {
            return Some(i);
        }
        assert(methods@.skip(i as int).skip(1) =~= methods@.skip(i + 1));
        i += 1;
    }
    None
}

/// Adds a method that an object was found to have: behind those of its name, or as
/// the first of a new name.
pub fn add_method<O>(methods: &mut Vec<BridgeMethods<O>>, name: &str, meta: BridgeMethodMeta<O>)
    ensures
        match methods_named(old(methods)@, name@) {
            Some(at) => {
                &&& final(methods)@.len() == old(methods)@.len()
                &&& final(methods)@[at].name@ == name@
                &&& final(methods)@[at].overloads@ == old(methods)@[at].overloads@.push(meta)
                &&& forall|i: int|
                    0 <= i < old(methods)@.len() && i != at ==> #[trigger] final(methods)@[i] == old(
                        methods,
                    )@[i]
            },
            None => {
                &&& final(methods)@.len() == old(methods)@.len() + 1
                &&& final(methods)@.take(old(methods)@.len() as int) == old(methods)@
                &&& final(methods)@.last().name@ == name@
                &&& final(methods)@.last().overloads@ == seq![meta]
            },
        },
        forall|k: int|
            0 <= k < old(methods)@.len() && (#[trigger] old(methods)@[k]).name@ != name@
                ==> final(methods)@[k] == old(methods)@[k],
        exists|m: int|
            {
                &&& 0 <= m < final(methods)@.len()
                &&& (#[trigger] final(methods)@[m]).name@ == name@
                &&& final(methods)@[m].overloads@.len() > 0
                &&& final(methods)@[m].overloads@.last() == meta
                &&& forall|j: int|
                    0 <= j < m && j < old(methods)@.len() ==> (#[trigger] old(methods)@[j]).name@
                        != name@
                &&& m < old(methods)@.len() ==> final(methods)@[m].overloads@.drop_last() == old(
                    methods,
                )@[m].overloads@ && old(methods)@[m].name@ == name@ && final(methods)@.len() == old(
                    methods,
                )@.len()
                &&& m >= old(methods)@.len() ==> final(methods)@[m].overloads@.len() == 1
                    && final(methods)@.len() == m + 1 && m == old(methods)@.len()
            },
{
    match find_methods(methods, name) {
        Some(at) => {
            let ghost before = methods@;
            methods[at].overloads.push(meta);
            assert(methods@[at as int].overloads@.drop_last() =~= before[at as int].overloads@);
        },
        None => {
            let mut overloads: Vec<BridgeMethodMeta<O>> = Vec::new();
            overloads.push(meta);
            let ghost before = methods@;
            methods.push(BridgeMethods { name: name.to_owned(), overloads });
            assert(methods@.take(before.len() as int) =~= before);
            assert(methods@[before.len() as int].name@ == name@);
        },
    }
}

/// What the web engine is told of the methods of a name.
pub struct WireMethod {
    pub name: String,
    pub returns_value: bool,
}

/// Whether one of the methods gives something back.
pub open spec fn some_returns<O>(overloads: Seq<BridgeMethodMeta<O>>) -> bool {
    exists|i: int| 0 <= i < overloads.len() && (#[trigger] overloads[i]).return_type@ != "void"@
}

/// What the web engine is told of the methods of an object: each name once, in the
/// order in which the names were found, and whether a method of the name gives
/// something back.
pub fn wire_methods<O>(methods: &Vec<BridgeMethods<O>>) -> (wire: Vec<WireMethod>)
    ensures
        wire@.len() == methods@.len(),
        forall|i: int|
            0 <= i < methods@.len() ==> (#[trigger] wire@[i]).name@ == methods@[i].name@
                && wire@[i].returns_value == some_returns(methods@[i].overloads@),
        forall|i: int|
            0 <= i < methods@.len() && !(#[trigger] wire@[i]).returns_value ==> forall|j: int|
                0 <= j < methods@[i].overloads@.len() ==> (
                #[trigger] methods@[i].overloads@[j]).return_type@ == "void"@,
        forall|i: int, j: int|
            0 <= i < methods@.len() && 0 <= j < methods@[i].overloads@.len() && (
            #[trigger] methods@[i].overloads@[j]).return_type@ != "void"@ ==> wire@[i].returns_value,
{
    let mut wire: Vec<WireMethod> = Vec::new();
    let mut i: usize = 0;
    while i < methods.len()
        invariant
            i <= methods@.len(),
            wire@.len() == i,
            forall|k: int|
                0 <= k < i ==> (#[trigger] wire@[k]).name@ == methods@[k].name@
                    && wire@[k].returns_value == some_returns(methods@[k].overloads@),
        decreases methods@.len() - i,
    {
        let overloads: &Vec<BridgeMethodMeta<O>> = &methods[i].overloads;
        let mut returns_value = false;
        let mut j: usize = 0;
        while j < overloads.len()
            invariant
                j <= overloads@.len(),
                returns_value == exists|k: int|
                    0 <= k < j && (#[trigger] overloads@[k]).return_type@ != "void"@,
            decreases overloads@.len() - j,
        {
            if !text::same_str(overloads[j].return_type.as_str(), "void") {
                returns_value = true;
                assert(overloads@[j as int].return_type@ != "void"@);
            }
            j += 1;
        }
        wire.push(WireMethod { name: text::string_of(&text::chars_of(methods[i].name.as_str())), returns_value });
        i += 1;
    }
    wire
}

/// A Java object that the pages of a web view can call by the name `iface`. `era`
/// says between which closings of web views it was registered.
pub struct BridgeEntry<O> {
    pub widget: i64,
    pub iface: String,
    pub object: O,
    pub methods: Vec<BridgeMethods<O>>,
    pub era: u64,
}

/// The bridged objects, at most one for a web view and a name, and the era that
/// lasts until the next closing of a web view.
pub struct Bridges<O> {
    pub entries: Vec<BridgeEntry<O>>,
    pub era: u64,
}

/// The entry for a web view and a name.
pub open spec fn bridge_at<O>(entries: Seq<BridgeEntry<O>>, widget: i64, iface: Seq<char>) -> Option<
    int,
>
    decreases entries.len(),
{
    if entries.len() == 0 {
        None
    } else if entries[0].widget == widget && entries[0].iface@ == iface {
        Some(0)
    } else {
        match bridge_at(entries.skip(1), widget, iface) {
            Some(i) => Some(i + 1),
            None => None,
        }
    }
}

/// Whether an entry stays when a web view closed that had its bridges until an era.
pub open spec fn survives(entry_widget: i64, entry_era: u64, closed: i64, upto_era: u64) -> bool {
    entry_widget != closed || entry_era > upto_era
}

/// Those of the entries that stay when a web view closed; all of its entries go
/// where no era is given.
pub open spec fn remaining<O>(
    entries: Seq<BridgeEntry<O>>,
    closed: i64,
    upto_era: Option<u64>,
) -> Seq<BridgeEntry<O>>
    decreases entries.len(),
{
    if entries.len() == 0 {
        Seq::empty()
    } else {
        let rest = remaining(entries.drop_last(), closed, upto_era);
        let stays = match upto_era {
            Some(upto) => survives(entries.last().widget, entries.last().era, closed, upto),
            None => entries.last().widget != closed,
        };
        if stays {
            rest.push(entries.last())
        } else {
            rest
        }
    }
}

/// Whether an entry stays when a web view closed that had its bridges until an era:
/// it belongs to another one, or was registered later.
pub fn bridge_survives_view_close(
    entry_widget: i64,
    entry_era: u64,
    closed: i64,
    upto_era: u64,
) -> (stays: bool)
    ensures
        stays == survives(entry_widget, entry_era, closed, upto_era),
        stays <==> entry_widget != closed || entry_era > upto_era,
{
    entry_widget != closed || entry_era > upto_era
}

impl<O> Bridges<O> {
    /// Whether no two entries share a web view and a name.
    pub open spec fn wf(self) -> bool {
        forall|i: int, j: int|
            0 <= i < j < self.entries@.len() && (#[trigger] self.entries@[i]).widget == (
            #[trigger] self.entries@[j]).widget ==> self.entries@[i].iface@
                != self.entries@[j].iface@
    }

    /// No bridged objects.
    pub fn new() -> (bridges: Self)
        ensures
            bridges.wf(),
            bridges.entries@.len() == 0,
            bridges.era == 0,
    {
        Bridges { entries: Vec::new(), era: 0 }
    }

    fn find(&self, widget: i64, iface: &str) -> (at: Option<usize>)
        ensures
            match at {
                Some(i) => i < self.entries@.len() && bridge_at(self.entries@, widget, iface@)
                    == Some(i as int) && self.entries@[i as int].widget == widget
                    && self.entries@[i as int].iface@ == iface@,
                None => bridge_at(self.entries@, widget, iface@) is None && forall|k: int|
                    0 <= k < self.entries@.len() ==> (#[trigger] self.entries@[k]).widget != widget
                        || self.entries@[k].iface@ != iface@,
            },
    {
        let mut i: usize = 0;
        assert(self.entries@.skip(0) =~= self.entries@);
        while i < self.entries.len()
            invariant
                i <= self.entries@.len(),
                forall|k: int|
                    0 <= k < i ==> (#[trigger] self.entries@[k]).widget != widget
                        || self.entries@[k].iface@ != iface@,
                bridge_at(self.entries@, widget, iface@) == (match bridge_at(
                    self.entries@.skip(i as int),
                    widget,
                    iface@,
                ) {
                    Some(k) => Some(k + i),
                    None => None,
                }),
            decreases self.entries@.len() - i,
        {
            assert(self.entries@.skip(i as int)[0] == self.entries@[i as int]);
            if self.entries[i].widget == widget && text::same_str(
                self.entries[i].iface.as_str(),
                iface,
            ) {
                return Some(i);
            }
            assert(self.entries@.skip(i as int).skip(1) =~= self.entries@.skip(i + 1));
            i += 1;
        }
        None
    }
}

/// Whether a page has anything to call.
pub fn has_webview_bridges<O>(bridges: &Bridges<O>) -> (b: bool)
    ensures
        b == (bridges.entries@.len() != 0),
{
    bridges.entries.len() != 0
}

/// The era that lasts until the next closing of a web view.
pub fn webview_close_era<O>(bridges: &Bridges<O>) -> (era: u64)
    ensures
        era == bridges.era,
{
    bridges.era
}

/// The era after another.
pub open spec fn next_era(era: u64) -> u64 {
    if era == u64::MAX {
        0
    } else {
        (era + 1) as u64
    }
}

/// Ends the era, as a web view closes, and returns the one that ended.
pub fn bump_webview_close_era<O>(bridges: &mut Bridges<O>) -> (ended: u64)
    requires
        old(bridges).wf(),
    ensures
        final(bridges).wf(),
        ended == old(bridges).era,
        final(bridges).era == next_era(old(bridges).era),
        old(bridges).era < u64::MAX ==> final(bridges).era == old(bridges).era + 1,
        old(bridges).era == u64::MAX ==> final(bridges).era == 0,
        final(bridges).entries == old(bridges).entries,
{
    let ended: u64 = bridges.era;
    bridges.era = if ended == u64::MAX {
        0
    } else {
        ended + 1
    };
    ended
}

/// Why an object is not bridged.
#[derive(Debug, Clone, Copy, PartialEq, Eq, Structural)]
pub enum BridgeRefusal {
    InvalidView,
    NullObject,
    NoName,
}

/// Whether an object can be bridged: its web view is known, the object is there,
/// and it has a name that is not empty.
pub fn bridge_name<'a>(
    view_known: bool,
    object_is_null: bool,
    name: Option<&'a str>,
) -> (result: Result<&'a str, BridgeRefusal>)
    ensures
        match result {
            Ok(iface) => view_known && !object_is_null && name == Some(iface) && iface@.len() > 0,
            Err(BridgeRefusal::InvalidView) => !view_known,
            Err(BridgeRefusal::NullObject) => view_known && object_is_null,
            Err(BridgeRefusal::NoName) => view_known && !object_is_null && (match name {
                Some(n) => n@.len() == 0,
                None => true,
            }),
        },
{
    if !view_known {
        return Err(BridgeRefusal::InvalidView);
    }
    if object_is_null {
        return Err(BridgeRefusal::NullObject);
    }
    match name {
        Some(iface) => if text::chars_of(iface).len() == 0 {
            Err(BridgeRefusal::NoName)
        } else {
            Ok(iface)
        },
        None => Err(BridgeRefusal::NoName),
    }
}

/// Lets the pages of a web view call an object by a name, in place of what they
/// called by it before.
pub fn register_bridge<O>(
    bridges: &mut Bridges<O>,
    widget: i64,
    iface: &str,
    object: O,
    methods: Vec<BridgeMethods<O>>,
)
    requires
        old(bridges).wf(),
    ensures
        final(bridges).wf(),
        final(bridges).era == old(bridges).era,
        ({
            let at = match bridge_at(old(bridges).entries@, widget, iface@) {
                Some(i) => i,
                None => old(bridges).entries@.len() as int,
            };
            let entry = final(bridges).entries@[at];
            &&& final(bridges).entries@ == (if at == old(bridges).entries@.len() {
                old(bridges).entries@.push(entry)
            } else {
                old(bridges).entries@.update(at, entry)
            })
            &&& entry.widget == widget
            &&& entry.iface@ == iface@
            &&& entry.object == object
            &&& entry.methods == methods
            &&& entry.era == old(bridges).era
        }),
        exists|e: int|
            {
                &&& 0 <= e < final(bridges).entries@.len()
                &&& (#[trigger] final(bridges).entries@[e]).widget == widget
                &&& final(bridges).entries@[e].iface@ == iface@
                &&& final(bridges).entries@[e].object == object
                &&& final(bridges).entries@[e].methods == methods
                &&& final(bridges).entries@[e].era == old(bridges).era
            },
        forall|k: int|
            0 <= k < old(bridges).entries@.len() && ((#[trigger] old(bridges).entries@[k]).widget
                != widget || old(bridges).entries@[k].iface@ != iface@)
                ==> final(bridges).entries@[k] == old(bridges).entries@[k],
        final(bridges).entries@.len() <= old(bridges).entries@.len() + 1,
{
    let era: u64 = bridges.era;
    let entry = BridgeEntry { widget, iface: text::string_of(&text::chars_of(iface)), object, methods, era };
    match bridges.find(widget, iface) {
        Some(at) => {
            bridges.entries.set(at, entry);
            assert(bridges.entries@[at as int].widget == widget);
        },
        None => {
            let ghost before = bridges.entries@;
            bridges.entries.push(entry);
            assert(bridges.entries@[before.len() as int].widget == widget);
        },
    }
}

proof fn lemma_remaining_is_wf<O>(
    entries: Seq<BridgeEntry<O>>,
    closed: i64,
    upto_era: Option<u64>,
)
    requires
        forall|i: int, j: int|
            0 <= i < j < entries.len() && (#[trigger] entries[i]).widget == (
            #[trigger] entries[j]).widget ==> entries[i].iface@ != entries[j].iface@,
    ensures
        ({
            let kept = remaining(entries, closed, upto_era);
            &&& forall|i: int| 0 <= i < kept.len() ==> entries.contains(#[trigger] kept[i])
            &&& forall|i: int, j: int|
                0 <= i < j < kept.len() && (#[trigger] kept[i]).widget == (
                #[trigger] kept[j]).widget ==> kept[i].iface@ != kept[j].iface@
        }),
    decreases entries.len(),
{
    if entries.len() > 0 {
        let front = entries.drop_last();
        assert forall|i: int, j: int|
            0 <= i < j < front.len() && (#[trigger] front[i]).widget == (
            #[trigger] front[j]).widget implies front[i].iface@ != front[j].iface@ by {
            assert(front[i] == entries[i] && front[j] == entries[j]);
        }
        lemma_remaining_is_wf(front, closed, upto_era);
        let kept = remaining(entries, closed, upto_era);
        let rest = remaining(front, closed, upto_era);
        assert forall|i: int| 0 <= i < rest.len() implies entries.contains(#[trigger] rest[i]) by {
            let k = choose|k: int| 0 <= k < front.len() && front[k] == rest[i];
            assert(entries[k] == rest[i]);
        }
        assert(entries.contains(entries.last())) by {
            assert(entries[entries.len() - 1] == entries.last());
        }
        assert forall|i: int| 0 <= i < kept.len() implies entries.contains(#[trigger] kept[i]) by {
            if i < rest.len() {
                assert(kept[i] == rest[i]);
            }
        }
        assert forall|i: int, j: int|
            0 <= i < j < kept.len() && (#[trigger] kept[i]).widget == (
            #[trigger] kept[j]).widget implies kept[i].iface@ != kept[j].iface@ by {
            assert(kept[i] == rest[i]);
            if j < rest.len() {
                assert(kept[j] == rest[j]);
            } else {
                let k = choose|k: int| 0 <= k < front.len() && front[k] == rest[i];
                assert(entries[k] == kept[i] && entries[entries.len() - 1] == kept[j]);
            }
        }
    }
}

fn drop_where<O>(bridges: &mut Bridges<O>, closed: i64, upto_era: Option<u64>)
    requires
        old(bridges).wf(),
    ensures
        final(bridges).wf(),
        final(bridges).era == old(bridges).era,
        final(bridges).entries@ == remaining(old(bridges).entries@, closed, upto_era),
{
    let ghost all = bridges.entries@;
    let ghost mut seen: int = 0;
    let mut i: usize = 0;
    assert(all.take(0) =~= Seq::empty());
    assert(all.skip(0) =~= all);
    while i < bridges.entries.len()
        invariant
            0 <= seen <= all.len(),
            i <= bridges.entries@.len(),
            bridges.entries@.take(i as int) =~= remaining(all.take(seen), closed, upto_era),
            bridges.entries@.skip(i as int) =~= all.skip(seen),
            bridges.era == old(bridges).era,
        decreases bridges.entries@.len() - i,
    {
        let ghost before = bridges.entries@;
        assert(before.skip(i as int)[0] == before[i as int]);
        assert(all.skip(seen).len() == before.len() - i);
        assert(all.skip(seen)[0] == all[seen]);
        assert(all.take(seen + 1).drop_last() =~= all.take(seen));
        assert(all.take(seen + 1).last() == all[seen]);
        assert(all.skip(seen + 1) =~= all.skip(seen).skip(1));
        let stays = match upto_era {
            Some(upto) => bridge_survives_view_close(
                bridges.entries[i].widget,
                bridges.entries[i].era,
                closed,
                upto,
            ),
            None => bridges.entries[i].widget != closed,
        };
        if stays {
            assert(before.take(i + 1) =~= before.take(i as int).push(before[i as int]));
            assert(before.skip(i + 1) =~= before.skip(i as int).skip(1));
            i += 1;
        } else {
            bridges.entries.remove(i);
            assert(bridges.entries@.take(i as int) =~= before.take(i as int));
            assert(bridges.entries@.skip(i as int) =~= before.skip(i as int).skip(1));
        }
        proof {
            seen = seen + 1;
        }
    }
    assert(all.skip(seen).len() == 0);
    assert(all.take(seen) =~= all);
    assert(bridges.entries@.take(i as int) =~= bridges.entries@);
    proof {
        lemma_remaining_is_wf(all, closed, upto_era);
    }
}

/// Drops the bridges of a web view.
pub fn drop_bridges_for<O>(bridges: &mut Bridges<O>, widget: i64)
    requires
        old(bridges).wf(),
    ensures
        final(bridges).wf(),
        final(bridges).era == old(bridges).era,
        final(bridges).entries@ == remaining(old(bridges).entries@, widget, None),
{
    drop_where(bridges, widget, None);
}

/// Drops the bridges of a web view that closed, but not those that were registered
/// after the era in which it did.
pub fn drop_bridges_for_view_closed<O>(bridges: &mut Bridges<O>, widget: i64, upto_era: u64)
    requires
        old(bridges).wf(),
    ensures
        final(bridges).wf(),
        final(bridges).era == old(bridges).era,
        final(bridges).entries@ == remaining(old(bridges).entries@, widget, Some(upto_era)),
{
    drop_where(bridges, widget, Some(upto_era));
}

/// Drops all bridges.
pub fn drop_all_bridges<O>(bridges: &mut Bridges<O>)
    requires
        old(bridges).wf(),
    ensures
        final(bridges).wf(),
        final(bridges).era == old(bridges).era,
        final(bridges).entries@.len() == 0,
{
    bridges.entries.clear();
}

/// What a page's call says: the object and the method by name, and the arguments.
pub struct BridgeRequest {
    pub iface: String,
    pub method: String,
    pub args: Vec<BridgeValue>,
}

/// A JSON value in plain values: its kind, its compact text, what it stands for
/// where it is a string, and whether it is `true`.
pub struct BridgeValue {
    pub kind: JsonKind,
    pub json: String,
    pub text: String,
    pub flag: bool,
}

/// Whether plain values describe the JSON value of a compact text.
pub open spec fn describes(value: BridgeValue, json: Seq<char>) -> bool {
    &&& value.kind == json::json_kind(json)
    &&& value.json@ == json
    &&& value.text@ == (if json::json_kind(json) == JsonKind::Text {
        json::json_unquoted(json)
    } else {
        Seq::empty()
    })
    &&& value.flag == (json::json_bool(json) == Some(true))
}

/// The text that a member of an object stands for, where it is a string.
pub open spec fn string_member(object: Seq<char>, key: Seq<char>) -> Option<Seq<char>> {
    match json::json_member(object, key) {
        Some(member) => if json::json_kind(member) == JsonKind::Text {
            Some(json::json_unquoted(member))
        } else {
            None
        },
        None => None,
    }
}

/// The values of a member of an object, where it is an array, else none.
pub open spec fn array_member(object: Seq<char>, key: Seq<char>) -> Seq<Seq<char>> {
    match json::json_member(object, key) {
        Some(member) => if json::json_kind(member) == JsonKind::Array {
            json::json_items(member)
        } else {
            Seq::empty()
        },
        None => Seq::empty(),
    }
}

/// Whether a request says what a payload says; none where the payload is no JSON or
/// does not name the object and the method.
pub open spec fn request_says(request: Option<BridgeRequest>, payload: Seq<char>) -> bool {
    match json::parsed_json(payload) {
        None => request is None,
        Some(json) => match (
            string_member(json, "iface"@),
            string_member(json, "method"@),
        ) {
            (Some(iface), Some(method)) => {
                &&& request is Some
                &&& request->0.iface@ == iface
                &&& request->0.method@ == method
                &&& request->0.args@.len() == array_member(json, "args"@).len()
                &&& forall|i: int|
                    0 <= i < request->0.args@.len() ==> describes(
                        #[trigger] request->0.args@[i],
                        array_member(json, "args"@)[i],
                    )
            },
            _ => request is None,
        },
    }
}

/// The lengths of the JSON texts of a call's arguments, for a log that must not show
/// them.
pub fn request_arg_lens(args: &[BridgeValue]) -> (lens: Vec<usize>)
    ensures
        lens@.len() == args@.len(),
        forall|i: int| 0 <= i < args@.len() ==> #[trigger] lens@[i] == byte_len(args@[i].json@),
        forall|i: int|
            0 <= i < args@.len() ==> #[trigger] lens@[i] == vstd::utf8::encode_utf8(
                args@[i].json@,
            ).len() as usize,
{
    let mut lens: Vec<usize> = Vec::new();
    let mut i: usize = 0;
    while i < args.len()
        invariant
            i <= args@.len(),
            lens@.len() == i,
            forall|j: int| 0 <= j < i ==> #[trigger] lens@[j] == byte_len(args@[j].json@),
        decreases args@.len() - i,
    {
        lens.push(args[i].json.as_str().len());
        i += 1;
    }
    lens
}

fn describe(value: &Value) -> (plain: BridgeValue)
    ensures
        describes(plain, json::json_text(*value)),
{
    let text = match json::value_str(value) {
        Some(s) => s.to_owned(),
        None => {
            let nothing: Vec<char> = Vec::new();
            text::string_of(&nothing)
        },
    };
    let flag = match json::value_bool(value) {
        Some(b) => b,
        None => false,
    };
    BridgeValue { kind: json::value_kind(value), json: json::value_text(value), text, flag }
}

fn member_text<'a>(value: &'a Value, key: &str) -> (text: Option<&'a str>)
    ensures
        match text {
            Some(s) => string_member(json::json_text(*value), key@) == Some(s@),
            None => string_member(json::json_text(*value), key@) is None,
        },
{
    match json::value_member(value, key) {
        Some(member) => json::value_str(member),
        None => None,
    }
}

/// Reads the payload of a page's call.
pub fn parse_bridge_payload(payload: &str) -> (request: Option<BridgeRequest>)
    ensures
        request_says(request, payload@),
{
    let parsed = match json::parse_value(payload) {
        Some(value) => value,
        None => {
            return None;
        },
    };
    let iface = match member_text(&parsed, "iface") {
        Some(s) => s.to_owned(),
        None => {
            return None;
        },
    };
    let method = match member_text(&parsed, "method") {
        Some(s) => s.to_owned(),
        None => {
            return None;
        },
    };
    let mut args: Vec<BridgeValue> = Vec::new();
    let ghost texts = array_member(json::json_text(parsed), "args"@);
    if let Some(member) = json::value_member(&parsed, "args") {
        if let Some(items) = json::value_items(member) {
            assert(texts == items@.map_values(|v: Value| json::json_text(v)));
            let mut i: usize = 0;
            while i < items.len()
                invariant
                    i <= items@.len(),
                    args@.len() == i,
                    texts == items@.map_values(|v: Value| json::json_text(v)),
                    forall|k: int| 0 <= k < i ==> describes(#[trigger] args@[k], texts[k]),
                decreases items@.len() - i,
            {
                args.push(describe(&items[i]));
                i += 1;
            }
        }
    }
    Some(BridgeRequest { iface, method, args })
}

/// The numbers of arguments that methods take.
pub open spec fn arities_of<O>(overloads: Seq<BridgeMethodMeta<O>>) -> Seq<usize> {
    overloads.map_values(|m: BridgeMethodMeta<O>| m.param_types@.len() as usize)
}

fn overload_arities<O>(overloads: &Vec<BridgeMethodMeta<O>>) -> (arities: Vec<usize>)
    ensures
        arities@ == arities_of(overloads@),
{
    let mut arities: Vec<usize> = Vec::new();
    let mut i: usize = 0;
    while i < overloads.len()
        invariant
            i <= overloads@.len(),
            arities@ =~= arities_of(overloads@).take(i as int),
        decreases overloads@.len() - i,
    {
        arities.push(overloads[i].param_types.len());
        i += 1;
    }
    assert(arities_of(overloads@).take(overloads@.len() as int) =~= arities_of(overloads@));
    arities
}

/// An argument as it is handed to Java.
pub struct BridgeArg {
    pub kind: ArgKind,
    /// The text of a string, the compact text of any other value.
    pub text: String,
    pub flag: bool,
}

/// Whether each value fits the parameter at its place.
pub open spec fn args_fit(args: Seq<BridgeValue>, params: Seq<String>) -> bool {
    forall|i: int|
        0 <= i < args.len() && i < params.len() ==> arg_kind(
            (#[trigger] args[i]).kind,
            params[i]@,
        ) != ArgKind::Reject
}

/// Whether an argument is what a value becomes for a parameter.
pub open spec fn is_arg_for(arg: BridgeArg, value: BridgeValue, param: Seq<char>) -> bool {
    &&& arg.kind == arg_kind(value.kind, param)
    &&& arg.text@ == (if arg.kind == ArgKind::Str {
        value.text@
    } else {
        value.json@
    })
    &&& arg.flag == value.flag
}

/// Prepares arguments for the parameters at their places; none where one does not
/// fit.
pub fn plan_args(args: &Vec<BridgeValue>, params: &Vec<String>) -> (plan: Option<Vec<BridgeArg>>)
    requires
        args@.len() == params@.len(),
    ensures
        match plan {
            Some(planned) => {
                &&& args_fit(args@, params@)
                &&& planned@.len() == args@.len()
                &&& forall|i: int|
                    0 <= i < args@.len() ==> is_arg_for(
                        #[trigger] planned@[i],
                        args@[i],
                        params@[i]@,
                    )
            },
            None => !args_fit(args@, params@),
        },
        plan is Some <==> forall|i: int|
            0 <= i < args@.len() ==> arg_kind((#[trigger] args@[i]).kind, params@[i]@)
                != ArgKind::Reject,
        plan is Some ==> forall|i: int|
            0 <= i < args@.len() ==> {
                let arg = #[trigger] plan->0@[i];
                &&& arg.kind == arg_kind(args@[i].kind, params@[i]@)
                &&& arg.kind == ArgKind::Str ==> arg.text@ == args@[i].text@
                &&& arg.kind != ArgKind::Str ==> arg.text@ == args@[i].json@
                &&& arg.flag == args@[i].flag
            },
{
    let mut planned: Vec<BridgeArg> = Vec::new();
    let mut i: usize = 0;
    while i < args.len()
        invariant
            i <= args@.len(),
            args@.len() == params@.len(),
            planned@.len() == i,
            forall|k: int|
                0 <= k < i ==> arg_kind((#[trigger] args@[k]).kind, params@[k]@) != ArgKind::Reject,
            forall|k: int|
                0 <= k < i ==> is_arg_for(#[trigger] planned@[k], args@[k], params@[k]@),
        decreases args@.len() - i,
    {
        let kind = plan_kind(args[i].kind, params[i].as_str());
        if kind == ArgKind::Reject {
            assert(arg_kind(args@[i as int].kind, params@[i as int]@) == ArgKind::Reject);
            return None;
        }
        let text = if kind == ArgKind::Str {
            args[i].text.as_str().to_owned()
        } else {
            args[i].json.as_str().to_owned()
        };
        planned.push(BridgeArg { kind, text, flag: args[i].flag });
        i += 1;
    }
    Some(planned)
}

/// What becomes of a page's call.
pub enum BridgeCall<'a, O> {
    /// The payload says nothing that can be called.
    BadPayload,
    /// No object or method of that name.
    Unknown,
    /// No method of that name takes as many arguments.
    NoOverload(Vec<usize>),
    /// An argument does not fit its parameter.
    BadArgument,
    /// The method is called on the object.
    Invoke(&'a O, &'a BridgeMethodMeta<O>, Vec<BridgeArg>),
}

/// The object and the methods of a name that a request is for: the places of the
/// entry and of the methods in it.
pub open spec fn called<O>(
    entries: Seq<BridgeEntry<O>>,
    widget: i64,
    request: BridgeRequest,
) -> Option<(int, int)> {
    match bridge_at(entries, widget, request.iface@) {
        Some(e) => match methods_named(entries[e].methods@, request.method@) {
            Some(m) => Some((e, m)),
            None => None,
        },
        None => None,
    }
}

/// What becomes of a page's call: among the methods of the name, the first that
/// takes as many arguments is called, with the arguments as its parameters ask.
pub open spec fn decides<O>(
    entries: Seq<BridgeEntry<O>>,
    widget: i64,
    request: Option<BridgeRequest>,
    call: BridgeCall<O>,
) -> bool {
    match request {
        None => call is BadPayload,
        Some(request) => match called(entries, widget, request) {
            None => call is Unknown,
            Some((e, m)) => {
                let overloads = entries[e].methods@[m].overloads@;
                match first_of_arity(arities_of(overloads), request.args@.len() as usize) {
                    None => call is NoOverload && call->NoOverload_0@ == arities_of(overloads),
                    Some(o) => if args_fit(request.args@, overloads[o].param_types@) {
                        &&& call is Invoke
                        &&& *call->Invoke_0 == entries[e].object
                        &&& *call->Invoke_1 == overloads[o]
                        &&& call->Invoke_2@.len() == request.args@.len()
                        &&& forall|i: int|
                            0 <= i < request.args@.len() ==> is_arg_for(
                                #[trigger] call->Invoke_2@[i],
                                request.args@[i],
                                overloads[o].param_types@[i]@,
                            )
                    } else {
                        call is BadArgument
                    },
                }
            },
        },
    }
}

/// Decides what becomes of a page's call: among the methods of the name, the first
/// that takes as many arguments is called, with the arguments as its parameters
/// ask.
pub fn plan_bridge_call<'a, O>(
    bridges: &'a Bridges<O>,
    widget: i64,
    request: Option<&BridgeRequest>,
) -> (call: BridgeCall<'a, O>)
    ensures
        decides(
            bridges.entries@,
            widget,
            match request {
                Some(request) => Some(*request),
                None => None,
            },
            call,
        ),
{
    let request = match request {
        Some(request) => request,
        None => {
            return BridgeCall::BadPayload;
        },
    };
    let entry: usize = match bridges.find(widget, request.iface.as_str()) {
        Some(at) => at,
        None => {
            return BridgeCall::Unknown;
        },
    };
    let group: usize = match find_methods(
        &bridges.entries[entry].methods,
        request.method.as_str(),
    ) {
        Some(at) => at,
        None => {
            return BridgeCall::Unknown;
        },
    };
    let overloads: &'a Vec<BridgeMethodMeta<O>> = &bridges.entries[entry].methods[group].overloads;
    let arities = overload_arities(overloads);
    match select_overload_index(&arities, request.args.len()) {
        Some(at) => {
            proof {
                lemma_first_of_arity(arities@, request.args@.len() as usize);
            }
            let meta: &'a BridgeMethodMeta<O> = &overloads[at];
            let arity: usize = meta.param_types.len();
            assert(arities@[at as int] == arity);
            match plan_args(&request.args, &meta.param_types) {
                Some(args) => BridgeCall::Invoke(&bridges.entries[entry].object, meta, args),
                None => BridgeCall::BadArgument,
            }
        },
        None => BridgeCall::NoOverload(arities),
    }
}

/// Decides what becomes of a page's call, by its payload.
pub fn begin_bridge_call<'a, O>(bridges: &'a Bridges<O>, widget: i64, payload: &str) -> (call:
    BridgeCall<'a, O>)
    ensures
        exists|request: Option<BridgeRequest>|
            #[trigger] request_says(request, payload@) && decides(
                bridges.entries@,
                widget,
                request,
                call,
            ),
{
    let request = parse_bridge_payload(payload);
    match &request {
        Some(r) => plan_bridge_call(bridges, widget, Some(r)),
        None => plan_bridge_call(bridges, widget, None),
    }
}

/// How a page's call ended.
pub enum BridgeOutcome {
    BadPayload,
    Rejected,
    Threw,
    /// The method returned; this is the JSON of what it gave back.
    Returned(String),
}

/// How a page's call ends that comes to no method; none where a method is called.
pub open spec fn refusal<O>(call: BridgeCall<O>) -> Option<BridgeOutcome> {
    match call {
        BridgeCall::BadPayload => Some(BridgeOutcome::BadPayload),
        BridgeCall::Unknown => Some(BridgeOutcome::Rejected),
        BridgeCall::NoOverload(_) => Some(BridgeOutcome::Rejected),
        BridgeCall::BadArgument => Some(BridgeOutcome::Rejected),
        BridgeCall::Invoke(..) => None,
    }
}

/// How a page's call ends that comes to no method: as a bad payload where it says
/// nothing that can be called, else as rejected. None where a method is called.
pub fn refused_outcome<O>(call: &BridgeCall<O>) -> (outcome: Option<BridgeOutcome>)
    ensures
        outcome == refusal(*call),
        call is BadPayload ==> outcome == Some(BridgeOutcome::BadPayload),
        call is Unknown || call is NoOverload || call is BadArgument ==> outcome == Some(
            BridgeOutcome::Rejected,
        ),
        call is Invoke ==> outcome is None,
{
    match call {
        BridgeCall::BadPayload => Some(BridgeOutcome::BadPayload),
        BridgeCall::Unknown => Some(BridgeOutcome::Rejected),
        BridgeCall::NoOverload(_) => Some(BridgeOutcome::Rejected),
        BridgeCall::BadArgument => Some(BridgeOutcome::Rejected),
        BridgeCall::Invoke(..) => None,
    }
}

/// A page hears of a bad payload exactly where its payload is no JSON or does not
/// name both an object and a method; every other call either comes to a method or
/// is rejected.
pub proof fn law_only_bad_payloads_are_told_so<O>(
    entries: Seq<BridgeEntry<O>>,
    widget: i64,
    payload: Seq<char>,
    request: Option<BridgeRequest>,
    call: BridgeCall<O>,
)
    requires
        request_says(request, payload),
        decides(entries, widget, request, call),
    ensures
        (refusal(call) == Some(BridgeOutcome::BadPayload)) == (match json::parsed_json(payload) {
            Some(json) => string_member(json, "iface"@) is None || string_member(
                json,
                "method"@,
            ) is None,
            None => true,
        }),
        refusal(call) != Some(BridgeOutcome::BadPayload) ==> refusal(call) is None || refusal(call)
            == Some(BridgeOutcome::Rejected),
        refusal(call) is None == call is Invoke,
{
}

/// What the page is answered: whether the call succeeded, and JSON.
pub fn bridge_reply(outcome: BridgeOutcome) -> (reply: (bool, String))
    ensures
        match outcome {
            BridgeOutcome::BadPayload => !reply.0 && reply.1@
                == "\"eclipse: bad bridge payload\""@,
            BridgeOutcome::Rejected => !reply.0 && reply.1@ == "null"@,
            BridgeOutcome::Threw => !reply.0 && reply.1@
                == "\"eclipse: bridge invocation error\""@,
            BridgeOutcome::Returned(json) => reply.0 && reply.1 == json,
        },
{
    match outcome {
        BridgeOutcome::BadPayload => (false, "\"eclipse: bad bridge payload\"".to_owned()),
        BridgeOutcome::Rejected => (false, "null".to_owned()),
        BridgeOutcome::Threw => (false, "\"eclipse: bridge invocation error\"".to_owned()),
        BridgeOutcome::Returned(json) => (true, json),
    }
}

/// What is asked of the object that a bridged method gave back.
#[derive(Debug, Clone, Copy, PartialEq, Eq, Structural)]
pub enum ReturnKind {
    /// Its truth value.
    Boolean,
    /// Its text, which is a number where JSON knows it.
    Number,
    /// Its text.
    Text,
}

/// What is asked of what a method of a type gave back.
pub open spec fn return_kind(t: Seq<char>) -> ReturnKind {
    if t == "boolean"@ || t == "java.lang.Boolean"@ {
        ReturnKind::Boolean
    } else if t == "int"@ || t == "long"@ || t == "short"@ || t == "byte"@ || t == "float"@ || t
        == "double"@ || t == "char"@ || t == "java.lang.Integer"@ || t == "java.lang.Long"@ || t
        == "java.lang.Short"@ || t == "java.lang.Byte"@ || t == "java.lang.Float"@ || t
        == "java.lang.Double"@ || t == "java.lang.Number"@ || t == "java.lang.Character"@ {
        ReturnKind::Number
    } else {
        ReturnKind::Text
    }
}

/// What is asked of what a method of a type gave back.
pub fn kind_of_return(return_type: &str) -> (kind: ReturnKind)
    ensures
        kind == return_kind(return_type@),
{
    let t = text::chars_of(return_type);
    if is(&t, "boolean") || is(&t, "java.lang.Boolean") {
        ReturnKind::Boolean
    } else if is(&t, "int") || is(&t, "long") || is(&t, "short") || is(&t, "byte") || is(
        &t,
        "float",
    ) || is(&t, "double") || is(&t, "char") || is(&t, "java.lang.Integer") || is(
        &t,
        "java.lang.Long",
    ) || is(&t, "java.lang.Short") || is(&t, "java.lang.Byte") || is(&t, "java.lang.Float") || is(
        &t,
        "java.lang.Double",
    ) || is(&t, "java.lang.Number") || is(&t, "java.lang.Character") {
        ReturnKind::Number
    } else {
        ReturnKind::Text
    }
}

/// What a bridged method gave back, as far as it could be had.
pub enum ReturnValue {
    Null,
    Boolean(Option<bool>),
    Text(Option<String>),
}

/// The JSON of what a method gave back.
pub open spec fn return_json(value: ReturnValue, kind: ReturnKind) -> Seq<char> {
    match value {
        ReturnValue::Null => "null"@,
        ReturnValue::Boolean(Some(true)) => "true"@,
        ReturnValue::Boolean(Some(false)) => "false"@,
        ReturnValue::Boolean(None) => "null"@,
        ReturnValue::Text(Some(s)) => if kind == ReturnKind::Number && json::json_number_ok(s@) {
            s@
        } else {
            json::json_quoted(s@)
        },
        ReturnValue::Text(None) => "null"@,
    }
}

/// The JSON of what a method gave back: nothing, or what could not be had, is
/// `null`; a number stays one where JSON knows it.
pub fn marshal_bridge_return(value: &ReturnValue, kind: ReturnKind) -> (json: String)
    ensures
        json@ == return_json(*value, kind),
        match *value {
            ReturnValue::Boolean(Some(b)) => json@ == (if b {
                "true"@
            } else {
                "false"@
            }),
            ReturnValue::Text(Some(s)) => {
                &&& kind == ReturnKind::Number && json::json_number_ok(s@) ==> json@ == s@
                &&& kind != ReturnKind::Number || !json::json_number_ok(s@) ==> json@
                    == json::json_quoted(s@)
            },
            _ => json@ == "null"@,
        },
{
    match value {
        ReturnValue::Null => "null".to_owned(),
        ReturnValue::Boolean(Some(b)) => if *b {
            "true".to_owned()
        } else {
            "false".to_owned()
        },
        ReturnValue::Boolean(None) => "null".to_owned(),
        ReturnValue::Text(Some(s)) => if kind == ReturnKind::Number {
            json::number_or_quote(s.as_str())
        } else {
            json::quote(s.as_str())
        },
        ReturnValue::Text(None) => "null".to_owned(),
    }
}

/// A bridge that is registered after a web view closed outlives that closing: the
/// bridges that go are those of the era that ended and of earlier ones.
pub proof fn law_later_bridges_survive(widget: i64, ended: u64, earlier: u64)
    requires
        ended < u64::MAX,
        earlier <= ended,
    ensures
        survives(widget, next_era(ended), widget, ended),
        !survives(widget, earlier, widget, ended),
        next_era(ended) == ended + 1,
{
}

/// The closing of a web view leaves the bridges of every other one alone, and
/// takes exactly those of its own that were registered until the era.
pub proof fn law_only_old_bridges_go<O>(
    entries: Seq<BridgeEntry<O>>,
    entry: BridgeEntry<O>,
    closed: i64,
    upto_era: u64,
)
    ensures
        remaining(entries, closed, Some(upto_era)).contains(entry) <==> entries.contains(entry)
            && survives(entry.widget, entry.era, closed, upto_era),
        remaining(entries, closed, Some(upto_era)).contains(entry) <==> entries.contains(entry)
            && (entry.widget != closed || entry.era > upto_era),
    decreases entries.len(),
{
    let kept = remaining(entries, closed, Some(upto_era));
    if entries.len() > 0 {
        let front = entries.drop_last();
        let rest = remaining(front, closed, Some(upto_era));
        law_only_old_bridges_go(front, entry, closed, upto_era);
        assert(entries =~= front.push(entries.last()));
        if kept.contains(entry) && !rest.contains(entry) {
            let i = choose|i: int| 0 <= i < kept.len() && kept[i] == entry;
            if i < rest.len() {
                assert(rest[i] == entry);
            }
            assert(entry == entries.last());
            assert(entries[entries.len() - 1] == entry);
        }
        if rest.contains(entry) {
            let i = choose|i: int| 0 <= i < rest.len() && rest[i] == entry;
            assert(kept[i] == entry);
            let k = choose|k: int| 0 <= k < front.len() && front[k] == entry;
            assert(entries[k] == entry);
        }
        if entries.contains(entry) && survives(entry.widget, entry.era, closed, upto_era)
            && !front.contains(entry) {
            let k = choose|k: int| 0 <= k < entries.len() && entries[k] == entry;
            if k < front.len() {
                assert(front[k] == entry);
            }
            assert(entry == entries.last());
            assert(kept[kept.len() - 1] == entry);
        }
        if front.contains(entry) {
            let k = choose|k: int| 0 <= k < front.len() && front[k] == entry;
            assert(entries[k] == entry);
        }
    }
}

/// A value that is null reaches every parameter but those of primitive types, and
/// an array or an object reaches none.
pub proof fn law_what_never_fits(p: Seq<char>)
    ensures
        arg_kind(JsonKind::Null, p) == ArgKind::Reject <==> is_primitive(p),
        arg_kind(JsonKind::Array, p) == ArgKind::Reject,
        arg_kind(JsonKind::Object, p) == ArgKind::Reject,
{
}

proof fn lemma_first_of_arity(arities: Seq<usize>, argc: usize)
    ensures
        match first_of_arity(arities, argc) {
            Some(i) => 0 <= i < arities.len() && arities[i] == argc,
            None => true,
        },
    decreases arities.len(),
{
    if arities.len() > 0 && arities[0] != argc {
        lemma_first_of_arity(arities.skip(1), argc);
    }
}

/// The truth value that a method gave back is told to the page as it is, and what could
/// not be had as `null`.
pub proof fn law_truth_is_told_as_it_is(b: bool, kind: ReturnKind)
    ensures
        json::json_bool(return_json(ReturnValue::Boolean(Some(b)), kind)) == Some(b),
        return_json(ReturnValue::Boolean(Some(true)), kind) != return_json(
            ReturnValue::Boolean(Some(false)),
            kind,
        ),
        json::json_kind(return_json(ReturnValue::Boolean(None), kind)) == JsonKind::Null,
        json::json_kind(return_json(ReturnValue::Text(None), kind)) == JsonKind::Null,
        json::json_kind(return_json(ReturnValue::Null, kind)) == JsonKind::Null,
{
    json::law_kinds_are_told_apart(Seq::empty());
    reveal_strlit("true");
    reveal_strlit("false");
    assert("true"@.len() != "false"@.len());
}

proof fn lemma_bridge_at<O>(entries: Seq<BridgeEntry<O>>, widget: i64, iface: Seq<char>, e: int)
    ensures
        0 <= e < entries.len() && entries[e].widget == widget && entries[e].iface@ == iface && (
        forall|k: int|
            0 <= k < e ==> (#[trigger] entries[k]).widget != widget || entries[k].iface@ != iface)
            ==> bridge_at(entries, widget, iface) == Some(e),
        (forall|k: int|
            0 <= k < entries.len() ==> (#[trigger] entries[k]).widget != widget
                || entries[k].iface@ != iface) ==> bridge_at(entries, widget, iface) is None,
    decreases entries.len(),
{
    if entries.len() > 0 {
        let rest = entries.skip(1);
        lemma_bridge_at(rest, widget, iface, e - 1);
        assert(entries[0] == entries[0]);
        if 0 < e < entries.len() {
            assert(rest[e - 1] == entries[e]);
        }
        if e < entries.len() && forall|k: int|
            0 <= k < e ==> (#[trigger] entries[k]).widget != widget || entries[k].iface@ != iface {
            assert forall|k: int| 0 <= k < e - 1 implies (#[trigger] rest[k]).widget != widget
                || rest[k].iface@ != iface by {
                assert(rest[k] == entries[k + 1]);
            }
        }
        if forall|k: int|
            0 <= k < entries.len() ==> (#[trigger] entries[k]).widget != widget
                || entries[k].iface@ != iface {
            assert forall|k: int| 0 <= k < rest.len() implies (#[trigger] rest[k]).widget != widget
                || rest[k].iface@ != iface by {
                assert(rest[k] == entries[k + 1]);
            }
        }
    }
}

proof fn lemma_methods_named<O>(methods: Seq<BridgeMethods<O>>, name: Seq<char>, m: int)
    ensures
        0 <= m < methods.len() && methods[m].name@ == name && (forall|k: int|
            0 <= k < m ==> (#[trigger] methods[k]).name@ != name) ==> methods_named(methods, name)
            == Some(m),
        (forall|k: int| 0 <= k < methods.len() ==> (#[trigger] methods[k]).name@ != name)
            ==> methods_named(methods, name) is None,
    decreases methods.len(),
{
    if methods.len() > 0 {
        let rest = methods.skip(1);
        lemma_methods_named(rest, name, m - 1);
        assert(methods[0] == methods[0]);
        if 0 < m < methods.len() {
            assert(rest[m - 1] == methods[m]);
        }
        if m < methods.len() && forall|k: int|
            0 <= k < m ==> (#[trigger] methods[k]).name@ != name {
            assert forall|k: int| 0 <= k < m - 1 implies (#[trigger] rest[k]).name@ != name by {
                assert(rest[k] == methods[k + 1]);
            }
        }
        if forall|k: int| 0 <= k < methods.len() ==> (#[trigger] methods[k]).name@ != name {
            assert forall|k: int| 0 <= k < rest.len() implies (#[trigger] rest[k]).name@ != name by {
                assert(rest[k] == methods[k + 1]);
            }
        }
    }
}

proof fn lemma_arity_is_first(arities: Seq<usize>, argc: usize, o: int)
    ensures
        0 <= o < arities.len() && arities[o] == argc && (forall|k: int|
            0 <= k < o ==> #[trigger] arities[k] != argc) ==> first_of_arity(arities, argc) == Some(
            o,
        ),
        (forall|k: int| 0 <= k < arities.len() ==> #[trigger] arities[k] != argc)
            ==> first_of_arity(arities, argc) is None,
    decreases arities.len(),
{
    if arities.len() > 0 {
        let rest = arities.skip(1);
        lemma_arity_is_first(rest, argc, o - 1);
        assert(arities[0] == arities[0]);
        if 0 < o < arities.len() {
            assert(rest[o - 1] == arities[o]);
        }
        if o < arities.len() && forall|k: int| 0 <= k < o ==> #[trigger] arities[k] != argc {
            assert forall|k: int| 0 <= k < o - 1 implies #[trigger] rest[k] != argc by {
                assert(rest[k] == arities[k + 1]);
            }
        }
        if forall|k: int| 0 <= k < arities.len() ==> #[trigger] arities[k] != argc {
            assert forall|k: int| 0 <= k < rest.len() implies #[trigger] rest[k] != argc by {
                assert(rest[k] == arities[k + 1]);
            }
        }
    }
}

/// A page's call reaches the object that its web view has under the name, and of that
/// object's methods of the name the first with as many parameters as there are arguments.
/// Every argument is handed on at its own place: a string as its text, anything else as
/// its JSON, and a truth value with its truth.
pub proof fn law_call_reaches_the_named_method<O>(
    entries: Seq<BridgeEntry<O>>,
    widget: i64,
    request: BridgeRequest,
    call: BridgeCall<O>,
    e: int,
    m: int,
    o: int,
    i: int,
)
    requires
        decides(entries, widget, Some(request), call),
        0 <= e < entries.len(),
        entries[e].widget == widget && entries[e].iface@ == request.iface@,
        forall|k: int|
            0 <= k < e ==> (#[trigger] entries[k]).widget != widget || entries[k].iface@
                != request.iface@,
        0 <= m < entries[e].methods@.len(),
        entries[e].methods@[m].name@ == request.method@,
        forall|k: int| 0 <= k < m ==> (#[trigger] entries[e].methods@[k]).name@ != request.method@,
        0 <= o < entries[e].methods@[m].overloads@.len(),
        entries[e].methods@[m].overloads@[o].param_types@.len() == request.args@.len(),
        request.args@.len() <= usize::MAX,
        forall|k: int|
            0 <= k < o ==> (#[trigger] entries[e].methods@[m].overloads@[k]).param_types@.len()
                <= usize::MAX && entries[e].methods@[m].overloads@[k].param_types@.len()
                != request.args@.len(),
        0 <= i < request.args@.len() || request.args@.len() == 0,
    ensures
        ({
            let meta = entries[e].methods@[m].overloads@[o];
            let fits = forall|k: int|
                0 <= k < request.args@.len() ==> arg_kind(
                    (#[trigger] request.args@[k]).kind,
                    meta.param_types@[k]@,
                ) != ArgKind::Reject;
            &&& !fits ==> call is BadArgument
            &&& fits ==> {
                &&& call is Invoke
                &&& *call->Invoke_0 == entries[e].object
                &&& *call->Invoke_1 == meta
                &&& call->Invoke_2@.len() == request.args@.len()
                &&& request.args@.len() > 0 ==> {
                    let arg = call->Invoke_2@[i];
                    let given = request.args@[i];
                    &&& arg.kind == arg_kind(given.kind, meta.param_types@[i]@)
                    &&& arg.kind == ArgKind::Str ==> arg.text@ == given.text@
                    &&& arg.kind != ArgKind::Str ==> arg.text@ == given.json@
                    &&& arg.flag == given.flag
                }
            }
        }),
{
    lemma_bridge_at(entries, widget, request.iface@, e);
    lemma_methods_named(entries[e].methods@, request.method@, m);
    let overloads = entries[e].methods@[m].overloads@;
    let arities = arities_of(overloads);
    let argc = request.args@.len() as usize;
    assert(arities[o] == argc);
    assert forall|k: int| 0 <= k < o implies #[trigger] arities[k] != argc by {
        assert(overloads[k].param_types@.len() != request.args@.len());
    }
    lemma_arity_is_first(arities, argc, o);
    if request.args@.len() > 0 && args_fit(request.args@, overloads[o].param_types@) {
        assert(is_arg_for(
            call->Invoke_2@[i],
            request.args@[i],
            overloads[o].param_types@[i]@,
        ));
    }
}

/// A page's call of an object or a method that its web view does not have is unknown, and
/// one with a number of arguments that no method of the name takes comes to no method.
pub proof fn law_call_of_nothing_is_refused<O>(
    entries: Seq<BridgeEntry<O>>,
    widget: i64,
    request: Option<BridgeRequest>,
    call: BridgeCall<O>,
    e: int,
    m: int,
)
    requires
        decides(entries, widget, request, call),
    ensures
        request is None <==> call is BadPayload,
        request matches Some(r) ==> {
            &&& (forall|k: int|
                0 <= k < entries.len() ==> (#[trigger] entries[k]).widget != widget
                    || entries[k].iface@ != r.iface@) ==> call is Unknown
            &&& 0 <= e < entries.len() && entries[e].widget == widget && entries[e].iface@
                == r.iface@ && (forall|k: int|
                0 <= k < e ==> (#[trigger] entries[k]).widget != widget || entries[k].iface@
                    != r.iface@) ==> {
                &&& (forall|k: int|
                    0 <= k < entries[e].methods@.len() ==> (
                    #[trigger] entries[e].methods@[k]).name@ != r.method@) ==> call is Unknown
                &&& 0 <= m < entries[e].methods@.len() && entries[e].methods@[m].name@ == r.method@
                    && (forall|k: int|
                    0 <= k < m ==> (#[trigger] entries[e].methods@[k]).name@ != r.method@) && (
                forall|k: int|
                    0 <= k < entries[e].methods@[m].overloads@.len() ==> (
                    #[trigger] entries[e].methods@[m].overloads@[k]).param_types@.len() as usize
                        != r.args@.len() as usize) ==> call is NoOverload
            }
        },
{
    if let Some(r) = request {
        lemma_bridge_at(entries, widget, r.iface@, e);
        if 0 <= e < entries.len() {
            lemma_methods_named(entries[e].methods@, r.method@, m);
            if 0 <= m < entries[e].methods@.len() {
                let overloads = entries[e].methods@[m].overloads@;
                let arities = arities_of(overloads);
                if forall|k: int|
                    0 <= k < overloads.len() ==> (#[trigger] overloads[k]).param_types@.len()
                        as usize != r.args@.len() as usize {
                    assert forall|k: int| 0 <= k < arities.len() implies #[trigger] arities[k]
                        != r.args@.len() as usize by {
                        assert(overloads[k].param_types@.len() as usize
                            != r.args@.len() as usize);
                    }
                }
                lemma_arity_is_first(arities, r.args@.len() as usize, 0);
            }
        }
    }
}

/// What a page asks for is what its payload says: the members `iface` and `method` by the
/// texts that they stand for, and the values of the member `args` in their order, each by
/// its kind, its JSON, its text where it is a string, and its truth where it is `true`.
pub proof fn law_request_is_what_the_payload_says(
    request: Option<BridgeRequest>,
    payload: Seq<char>,
    json: Seq<char>,
    iface: Seq<char>,
    method: Seq<char>,
    i: int,
)
    requires
        request_says(request, payload),
        json::parsed_json(payload) == Some(json),
        json::json_member(json, "iface"@) == Some(iface),
        json::json_member(json, "method"@) == Some(method),
        json::json_kind(iface) == JsonKind::Text,
        json::json_kind(method) == JsonKind::Text,
    ensures
        request is Some,
        request->0.iface@ == json::json_unquoted(iface),
        request->0.method@ == json::json_unquoted(method),
        ({
            let args = json::json_member(json, "args"@);
            &&& args is None || json::json_kind(args->0) != JsonKind::Array
                ==> request->0.args@.len() == 0
            &&& args is Some && json::json_kind(args->0) == JsonKind::Array ==> {
                let items = json::json_items(args->0);
                &&& request->0.args@.len() == items.len()
                &&& 0 <= i < items.len() ==> {
                    let arg = request->0.args@[i];
                    &&& arg.kind == json::json_kind(items[i])
                    &&& arg.json@ == items[i]
                    &&& arg.kind == JsonKind::Text ==> arg.text@ == json::json_unquoted(items[i])
                    &&& arg.kind != JsonKind::Text ==> arg.text@.len() == 0
                    &&& arg.flag <==> items[i] == "true"@
                }
            }
        }),
{
    reveal_strlit("true");
    reveal_strlit("false");
    assert("true"@.len() != "false"@.len());
    if 0 <= i < request->0.args@.len() {
        assert(describes(request->0.args@[i], array_member(json, "args"@)[i]));
    }
}

/// Closing a web view for good takes every bridge of its own and no other.
pub proof fn law_closed_view_has_no_bridges<O>(
    entries: Seq<BridgeEntry<O>>,
    entry: BridgeEntry<O>,
    closed: i64,
)
    ensures
        remaining(entries, closed, None).contains(entry) <==> entries.contains(entry)
            && entry.widget != closed,
    decreases entries.len(),
{
    let kept = remaining(entries, closed, None);
    if entries.len() > 0 {
        let front = entries.drop_last();
        let last = entries.last();
        let rest = remaining(front, closed, None);
        law_closed_view_has_no_bridges(front, entry, closed);
        assert(entries =~= front.push(last));
        if kept.contains(entry) {
            let i = choose|i: int| 0 <= i < kept.len() && kept[i] == entry;
            if i < rest.len() {
                assert(rest[i] == entry);
            }
        }
        if rest.contains(entry) {
            let i = choose|i: int| 0 <= i < rest.len() && rest[i] == entry;
            assert(kept[i] == entry);
        }
        if entries.contains(entry) {
            let k = choose|k: int| 0 <= k < entries.len() && entries[k] == entry;
            if k < front.len() {
                assert(front[k] == entry);
            } else if entry.widget != closed {
                assert(kept[kept.len() - 1] == entry);
            }
        }
        if front.contains(entry) {
            let k = choose|k: int| 0 <= k < front.len() && front[k] == entry;
            assert(entries[k] == entry);
        }
        if entry == last {
            assert(entries[entries.len() - 1] == entry);
        }
    }
}

proof fn lemma_java_types_differ(p: Seq<char>)
    ensures
        p == "int"@ ==> p.len() == 3,
        p == "long"@ ==> p.len() == 4 && p[0] == 'l',
        p == "short"@ ==> p.len() == 5 && p[0] == 's',
        p == "byte"@ ==> p.len() == 4 && p[0] == 'b',
        p == "float"@ ==> p.len() == 5 && p[0] == 'f',
        p == "double"@ ==> p.len() == 6,
        p == "boolean"@ ==> p.len() == 7,
        p == "char"@ ==> p.len() == 4 && p[0] == 'c',
        p == "java.lang.Integer"@ ==> p.len() == 17 && p[10] == 'I',
        p == "java.lang.Long"@ ==> p.len() == 14 && p[10] == 'L',
        p == "java.lang.Short"@ ==> p.len() == 15 && p[10] == 'S',
        p == "java.lang.Byte"@ ==> p.len() == 14 && p[10] == 'B',
        p == "java.lang.Float"@ ==> p.len() == 15 && p[10] == 'F',
        p == "java.lang.Double"@ ==> p.len() == 16 && p[10] == 'D',
        p == "java.lang.Number"@ ==> p.len() == 16 && p[10] == 'N',
        p == "java.lang.Object"@ ==> p.len() == 16 && p[10] == 'O',
        p == "java.lang.String"@ ==> p.len() == 16 && p[10] == 'S',
        p == "java.lang.Boolean"@ ==> p.len() == 17 && p[10] == 'B',
        p == "java.lang.Character"@ ==> p.len() == 19,
        p == "java.lang.CharSequence"@ ==> p.len() == 22,
{
    reveal_strlit("int");
    reveal_strlit("long");
    reveal_strlit("short");
    reveal_strlit("byte");
    reveal_strlit("float");
    reveal_strlit("double");
    reveal_strlit("boolean");
    reveal_strlit("char");
    reveal_strlit("java.lang.Integer");
    reveal_strlit("java.lang.Long");
    reveal_strlit("java.lang.Short");
    reveal_strlit("java.lang.Byte");
    reveal_strlit("java.lang.Float");
    reveal_strlit("java.lang.Double");
    reveal_strlit("java.lang.Number");
    reveal_strlit("java.lang.Object");
    reveal_strlit("java.lang.Boolean");
    reveal_strlit("java.lang.Character");
    reveal_strlit("java.lang.String");
    reveal_strlit("java.lang.CharSequence");
}

/// A number is boxed as the parameter asks: by the primitive type or its box, and as a
/// double where any number or any object will do. A string goes to a string, to a
/// character sequence and to any object, a truth value to a boolean, to its box and to any
/// object, and nothing goes anywhere else.
pub proof fn law_values_become_what_parameters_ask(p: Seq<char>)
    ensures
        p == "int"@ || p == "java.lang.Integer"@ ==> arg_kind(JsonKind::Number, p) == ArgKind::IntBox,
        p == "long"@ || p == "java.lang.Long"@ ==> arg_kind(JsonKind::Number, p) == ArgKind::LongBox,
        p == "short"@ || p == "java.lang.Short"@ ==> arg_kind(JsonKind::Number, p) == ArgKind::ShortBox,
        p == "byte"@ || p == "java.lang.Byte"@ ==> arg_kind(JsonKind::Number, p) == ArgKind::ByteBox,
        p == "float"@ || p == "java.lang.Float"@ ==> arg_kind(JsonKind::Number, p) == ArgKind::FloatBox,
        p == "double"@ || p == "java.lang.Double"@ ==> arg_kind(JsonKind::Number, p) == ArgKind::DoubleBox,
        p == "java.lang.Number"@ || p == "java.lang.Object"@ ==> arg_kind(JsonKind::Number, p)
            == ArgKind::DoubleBox,
        p == "boolean"@ || p == "char"@ || p == "java.lang.String"@ || p == "java.lang.Boolean"@
            || p == "java.lang.Character"@ || p == "java.lang.CharSequence"@ ==> arg_kind(
            JsonKind::Number,
            p,
        ) == ArgKind::Reject,
        arg_kind(JsonKind::Number, p) != ArgKind::Str && arg_kind(JsonKind::Number, p)
            != ArgKind::BoolBox && arg_kind(JsonKind::Number, p) != ArgKind::Null,
        arg_kind(JsonKind::Number, p) != ArgKind::Reject ==> p == "int"@ || p == "long"@ || p
            == "short"@ || p == "byte"@ || p == "float"@ || p == "double"@ || p
            == "java.lang.Integer"@ || p == "java.lang.Long"@ || p == "java.lang.Short"@ || p
            == "java.lang.Byte"@ || p == "java.lang.Float"@ || p == "java.lang.Double"@ || p
            == "java.lang.Number"@ || p == "java.lang.Object"@,
        arg_kind(JsonKind::Array, p) == ArgKind::Reject,
        arg_kind(JsonKind::Object, p) == ArgKind::Reject,
        p == "java.lang.String"@ || p == "java.lang.CharSequence"@ || p == "java.lang.Object"@
            <==> arg_kind(JsonKind::Text, p) == ArgKind::Str,
        arg_kind(JsonKind::Text, p) == ArgKind::Str || arg_kind(JsonKind::Text, p)
            == ArgKind::Reject,
        p == "boolean"@ || p == "java.lang.Boolean"@ || p == "java.lang.Object"@ <==> arg_kind(
            JsonKind::Bool,
            p,
        ) == ArgKind::BoolBox,
        arg_kind(JsonKind::Bool, p) == ArgKind::BoolBox || arg_kind(JsonKind::Bool, p)
            == ArgKind::Reject,
        p == "int"@ || p == "long"@ || p == "short"@ || p == "byte"@ || p == "float"@ || p
            == "double"@ || p == "boolean"@ || p == "char"@ <==> arg_kind(JsonKind::Null, p)
            == ArgKind::Reject,
        arg_kind(JsonKind::Null, p) == ArgKind::Null || arg_kind(JsonKind::Null, p)
            == ArgKind::Reject,
{
    lemma_java_types_differ(p);
}

/// A method's answer is read by its type: a truth value for a boolean and its box, a number
/// for the other primitive types, their boxes and any number, and a text for anything else.
pub proof fn law_answers_are_read_by_their_type(p: Seq<char>)
    ensures
        p == "boolean"@ || p == "java.lang.Boolean"@ <==> return_kind(p) == ReturnKind::Boolean,
        p == "int"@ ==> return_kind(p) == ReturnKind::Number,
        p == "long"@ ==> return_kind(p) == ReturnKind::Number,
        p == "short"@ ==> return_kind(p) == ReturnKind::Number,
        p == "byte"@ ==> return_kind(p) == ReturnKind::Number,
        p == "float"@ ==> return_kind(p) == ReturnKind::Number,
        p == "double"@ ==> return_kind(p) == ReturnKind::Number,
        p == "char"@ ==> return_kind(p) == ReturnKind::Number,
        p == "java.lang.Integer"@ ==> return_kind(p) == ReturnKind::Number,
        p == "java.lang.Long"@ ==> return_kind(p) == ReturnKind::Number,
        p == "java.lang.Short"@ ==> return_kind(p) == ReturnKind::Number,
        p == "java.lang.Byte"@ ==> return_kind(p) == ReturnKind::Number,
        p == "java.lang.Float"@ ==> return_kind(p) == ReturnKind::Number,
        p == "java.lang.Double"@ ==> return_kind(p) == ReturnKind::Number,
        p == "java.lang.Number"@ ==> return_kind(p) == ReturnKind::Number,
        p == "java.lang.Character"@ ==> return_kind(p) == ReturnKind::Number,
        p == "java.lang.String"@ || p == "java.lang.Object"@ || p == "java.lang.CharSequence"@
            ==> return_kind(p) == ReturnKind::Text,
        return_kind(p) == ReturnKind::Number ==> p == "int"@ || p == "long"@ || p == "short"@ || p
            == "byte"@ || p == "float"@ || p == "double"@ || p == "char"@ || p
            == "java.lang.Integer"@ || p == "java.lang.Long"@ || p == "java.lang.Short"@ || p
            == "java.lang.Byte"@ || p == "java.lang.Float"@ || p == "java.lang.Double"@ || p
            == "java.lang.Number"@ || p == "java.lang.Character"@,
{
    lemma_java_types_differ(p);
}

/// A payload that is no JSON, or that does not name the object and the method as texts,
/// is no request.
pub proof fn law_payload_without_names_is_no_request(
    request: Option<BridgeRequest>,
    payload: Seq<char>,
    key: Seq<char>,
)
    requires
        request_says(request, payload),
        key == "iface"@ || key == "method"@,
    ensures
        json::parsed_json(payload) is None ==> request is None,
        json::parsed_json(payload) matches Some(json) ==> {
            let named = json::json_member(json, key);
            named is None || json::json_kind(named->0) != JsonKind::Text ==> request is None
        },
{
}

} // verus!
