//! The property bag of a graph node and the rows that a statement returns.
use vstd::prelude::*;

verus! {

/// A property value as the graph store holds it. A float is held as the bits of
/// its IEEE-754 double, since nothing here computes with it.
#[derive(Debug)]
pub enum PropValue {
    Str(String),
    Int(i64),
    Float(u64),
    Bool(bool),
    StrList(Vec<String>),
    /// A value of a type that no entity field takes (a date, a map, a mixed list).
    Unsupported,
}

/// The mathematical value of a `PropValue`.
pub enum PropSpec {
    Str(Seq<char>),
    Int(int),
    Float(u64),
    Bool(bool),
    StrList(Seq<Seq<char>>),
    Unsupported,
}

impl View for PropValue {
    type V = PropSpec;

    open spec fn view(&self) -> PropSpec {
        match self {
            PropValue::Str(s) => PropSpec::Str(s@),
            PropValue::Int(i) => PropSpec::Int(*i as int),
            PropValue::Float(b) => PropSpec::Float(*b),
            PropValue::Bool(b) => PropSpec::Bool(*b),
            PropValue::StrList(v) => PropSpec::StrList(v.deep_view()),
            PropValue::Unsupported => PropSpec::Unsupported,
        }
    }
}

pub type PropsSpec = Seq<(Seq<char>, PropSpec)>;

/// The view of a list of named values: each name with the view of its value.
pub open spec fn pairs_view<V: View>(s: Seq<(String, V)>) -> Seq<(Seq<char>, V::V)> {
    s.map_values(|p: (String, V)| (p.0@, p.1@))
}

pub open spec fn props_view(props: Seq<(String, PropValue)>) -> PropsSpec {
    pairs_view(props)
}

/// The value stored under `key`: the first entry with that name.
pub open spec fn lookup<V>(s: Seq<(Seq<char>, V)>, key: Seq<char>) -> Option<V>
    decreases s.len(),
{
    if s.len() == 0 {
        None
    } else if s[0].0 == key {
        Some(s[0].1)
    } else {
        lookup(s.drop_first(), key)
    }
}

pub open spec fn prop_of(props: PropsSpec, key: Seq<char>) -> Option<PropSpec> {
    lookup(props, key)
}

/// The names of a list of named values, in order.
pub open spec fn names_of<V>(s: Seq<(Seq<char>, V)>) -> Seq<Seq<char>> {
    s.map_values(|p: (Seq<char>, V)| p.0)
}

pub proof fn lemma_lookup_found<V>(s: Seq<(Seq<char>, V)>, key: Seq<char>, i: int)
    requires
        0 <= i < s.len(),
        s[i].0 == key,
        forall|j: int| 0 <= j < i ==> s[j].0 != key,
    ensures
        lookup(s, key) == Some(s[i].1),
    decreases i,
{
    if i > 0 {
        let rest = s.drop_first();
        assert forall|j: int| 0 <= j < i - 1 implies rest[j].0 != key by {
            assert(rest[j] == s[j + 1]);
        }
        lemma_lookup_found(rest, key, i - 1);
    }
}

pub proof fn lemma_lookup_absent<V>(s: Seq<(Seq<char>, V)>, key: Seq<char>)
    requires
        forall|j: int| 0 <= j < s.len() ==> s[j].0 != key,
    ensures
        lookup(s, key) is None,
    decreases s.len(),
{
    if s.len() > 0 {
        let rest = s.drop_first();
        assert forall|j: int| 0 <= j < rest.len() implies rest[j].0 != key by {
            assert(rest[j] == s[j + 1]);
        }
        lemma_lookup_absent(rest, key);
    }
}

/// Index of the first entry named `key`, if there is one.
pub fn find_key<V: View>(s: &Vec<(String, V)>, key: &str) -> (r: Option<usize>)
    ensures
        match r {
            Some(i) => i < s@.len() && s@[i as int].0@ == key@
                && lookup(pairs_view(s@), key@) == Some(s@[i as int].1@),
            None => lookup(pairs_view(s@), key@) is None,
        },
        r is None <==> forall|j: int| 0 <= j < s@.len() ==> s@[j].0@ != key@,
{
    let k = String::from_str(key);
    let ghost pv = pairs_view(s@);
    let mut i: usize = 0;
    while i < s.len()
        invariant
            i <= s@.len(),
            k@ == key@,
            pv == pairs_view(s@),
            forall|j: int| 0 <= j < i ==> s@[j].0@ != key@,
        decreases s@.len() - i,
    {
        if s[i].0 == k {
            proof {
                assert forall|j: int| 0 <= j < i implies pv[j].0 != key@ by {}
                lemma_lookup_found(pv, key@, i as int);
            }
            return Some(i);
        }
        i = i + 1;
    }
    proof {
        assert forall|j: int| 0 <= j < pv.len() implies pv[j].0 != key@ by {}
        lemma_lookup_absent(pv, key@);
    }
    None
}

pub fn find_prop(props: &Vec<(String, PropValue)>, key: &str) -> (r: Option<usize>)
    ensures
        match r {
            Some(i) => i < props@.len() && props@[i as int].0@ == key@
                && prop_of(props_view(props@), key@) == Some(props@[i as int].1@),
            None => prop_of(props_view(props@), key@) is None,
        },
        r is None <==> forall|j: int| 0 <= j < props@.len() ==> props@[j].0@ != key@,
{
    find_key(props, key)
}

/// A graph node as a statement returns it: its label and its property bag.
#[derive(Debug)]
pub struct NodeRecord {
    pub label: String,
    pub props: Vec<(String, PropValue)>,
}

pub struct NodeView {
    pub label: Seq<char>,
    pub props: PropsSpec,
}

impl View for NodeRecord {
    type V = NodeView;

    open spec fn view(&self) -> NodeView {
        NodeView { label: self.label@, props: props_view(self.props@) }
    }
}

pub open spec fn is_digit(c: char) -> bool {
    '0' <= c && c <= '9'
}

/// The value of a run of decimal digits.
pub open spec fn digits_value(s: Seq<char>) -> int
    decreases s.len(),
{
    if s.len() == 0 {
        0
    } else {
        digits_value(s.drop_last()) * 10 + (s.last() as int - '0' as int)
    }
}

/// An optional `+` or `-`, then one or more decimal digits.
pub open spec fn signed_decimal(s: Seq<char>) -> Option<int> {
    let ds = unsigned_part(s);
    if ds.len() > 0 && all_digits(ds) {
        Some(if s.len() > 0 && s[0] == '-' { -digits_value(ds) } else { digits_value(ds) })
    } else {
        None
    }
}

/// A text without its leading sign, if it has one.
pub open spec fn unsigned_part(s: Seq<char>) -> Seq<char> {
    if s.len() > 0 && (s[0] == '-' || s[0] == '+') {
        s.drop_first()
    } else {
        s
    }
}

pub open spec fn all_digits(ds: Seq<char>) -> bool {
    forall|i: int| 0 <= i < ds.len() ==> is_digit(#[trigger] ds[i])
}

pub open spec fn in_i32(v: int) -> bool {
    i32::MIN <= v && v <= i32::MAX
}

/// The 32-bit integer that a string spells in decimal, if it spells one.
pub open spec fn decimal_i32(s: Seq<char>) -> Option<int> {
    match signed_decimal(s) {
        Some(v) => if in_i32(v) { Some(v) } else { None },
        None => None,
    }
}

proof fn lemma_digits_nonneg(ds: Seq<char>)
    requires
        forall|i: int| 0 <= i < ds.len() ==> is_digit(#[trigger] ds[i]),
    ensures
        digits_value(ds) >= 0,
    decreases ds.len(),
{
    if ds.len() > 0 {
        let p = ds.drop_last();
        assert forall|i: int| 0 <= i < p.len() implies is_digit(#[trigger] p[i]) by {
            assert(p[i] == ds[i]);
        }
        lemma_digits_nonneg(p);
        assert(is_digit(ds[ds.len() - 1]));
    }
}

/// A run of digits is worth at least any of its prefixes.
proof fn lemma_digits_prefix(ds: Seq<char>, k: int)
    requires
        0 <= k <= ds.len(),
        forall|i: int| 0 <= i < ds.len() ==> is_digit(#[trigger] ds[i]),
    ensures
        digits_value(ds.take(k)) <= digits_value(ds),
    decreases ds.len(),
{
    if k < ds.len() {
        let p = ds.drop_last();
        assert forall|i: int| 0 <= i < p.len() implies is_digit(#[trigger] p[i]) by {
            assert(p[i] == ds[i]);
        }
        lemma_digits_prefix(p, k);
        assert(p.take(k) =~= ds.take(k));
        lemma_digits_nonneg(p);
        assert(is_digit(ds[ds.len() - 1]));
    } else {
        assert(ds.take(k) =~= ds);
    }
}

proof fn lemma_not_decimal(s: Seq<char>, signed: bool, ds: Seq<char>, j: int)
    requires
        s.len() > 0,
        signed == (s[0] == '-' || s[0] == '+'),
        ds == (if signed { s.drop_first() } else { s }),
        0 <= j < ds.len(),
        !is_digit(ds[j]),
    ensures
        signed_decimal(s) is None,
        decimal_i32(s) is None,
{
    assert(unsigned_part(s) == ds);
    assert(!all_digits(ds));
}

proof fn lemma_decimal_value(s: Seq<char>, signed: bool, ds: Seq<char>)
    requires
        s.len() > 0,
        signed == (s[0] == '-' || s[0] == '+'),
        ds == (if signed { s.drop_first() } else { s }),
        ds.len() > 0,
        forall|j: int| 0 <= j < ds.len() ==> is_digit(#[trigger] ds[j]),
    ensures
        signed_decimal(s) == Some(if s[0] == '-' { -digits_value(ds) } else { digits_value(ds) }),
{
}

/// The 32-bit integer that a text spells in decimal: an optional `+` or `-`, then one
/// or more ASCII digits, with a value that fits (the rule of `i32::from_str`).
fn parse_i32(s: &str) -> (r: Option<i32>)
    ensures
        match r {
            Some(v) => decimal_i32(s@) == Some(v as int),
            None => decimal_i32(s@) is None,
        },
{
    let n = s.unicode_len();
    if n == 0 {
        return None;
    }
    let c0 = s.get_char(0);
    let signed = c0 == '-' || c0 == '+';
    let neg = c0 == '-';
    let start: usize = if signed { 1 } else { 0 };
    let ghost ds = if signed { s@.drop_first() } else { s@ };
    if start >= n {
        return None;
    }
    let limit: i64 = if neg { 2147483648 } else { 2147483647 };
    let mut acc: i64 = 0;
    let mut i: usize = start;
    while i < n
        invariant
            n == s@.len(),
            n > 0,
            signed == (s@[0] == '-' || s@[0] == '+'),
            neg == (s@[0] == '-'),
            start <= i <= n,
            start == (if signed { 1usize } else { 0usize }),
            ds == (if signed { s@.drop_first() } else { s@ }),
            ds.len() == n - start,
            forall|j: int| 0 <= j < i - start ==> is_digit(#[trigger] ds[j]),
            acc as int == digits_value(ds.take(i - start)),
            0 <= acc <= limit,
            limit == (if neg { 2147483648i64 } else { 2147483647i64 }),
        decreases n - i,
    {
        let c = s.get_char(i);
        assert(c == ds[i - start]);
        if !('0' <= c && c <= '9') {
            assert(!is_digit(ds[i - start]));
            proof {
                lemma_not_decimal(s@, signed, ds, (i - start) as int);
            }
            return None;
        }
        let d = (c as u32 - '0' as u32) as i64;
        let ghost t = ds.take(i - start + 1);
        assert(t.drop_last() =~= ds.take(i - start));
        assert(t.last() == c);
        acc = acc * 10 + d;
        i = i + 1;
        if acc > limit {
            proof {
                if forall|j: int| 0 <= j < ds.len() ==> is_digit(#[trigger] ds[j]) {
                    lemma_digits_prefix(ds, i - start);
                    lemma_decimal_value(s@, signed, ds);
                } else {
                    let j = choose|j: int| 0 <= j < ds.len() && !is_digit(ds[j]);
                    lemma_not_decimal(s@, signed, ds, j);
                }
            }
            return None;
        }
    }
    assert(ds.take(n - start) =~= ds);
    if neg {
        Some((0 - acc) as i32)
    } else {
        Some(acc as i32)
    }
}

/// A stored integer as an `i32`: an integer in range, or a string that spells one.
pub open spec fn num_of(v: PropSpec) -> Option<int> {
    match v {
        PropSpec::Int(i) => if in_i32(i) { Some(i) } else { None },
        PropSpec::Str(s) => decimal_i32(s),
        _ => None,
    }
}

/// A property that must be a string.
pub open spec fn required_str(p: PropsSpec, key: Seq<char>) -> Option<Seq<char>> {
    match prop_of(p, key) {
        Some(PropSpec::Str(s)) => Some(s),
        _ => None,
    }
}

/// An optional string property: `default` where it is absent, `None` where it holds
/// another type.
pub open spec fn optional_str(p: PropsSpec, key: Seq<char>, default: Seq<char>) -> Option<Seq<char>> {
    match prop_of(p, key) {
        None => Some(default),
        Some(PropSpec::Str(s)) => Some(s),
        _ => None,
    }
}

/// An optional boolean property: `false` where it is absent, `None` where it holds
/// another type.
pub open spec fn optional_bool(p: PropsSpec, key: Seq<char>) -> Option<bool> {
    match prop_of(p, key) {
        None => Some(false),
        Some(PropSpec::Bool(b)) => Some(b),
        _ => None,
    }
}

/// An optional float property (its bits): the bits of `0.0` where it is absent, `None`
/// where it holds another type.
pub open spec fn optional_float(p: PropsSpec, key: Seq<char>) -> Option<u64> {
    match prop_of(p, key) {
        None => Some(0),
        Some(PropSpec::Float(b)) => Some(b),
        _ => None,
    }
}

/// An optional list-of-strings property: empty where it is absent, `None` where it
/// holds another type.
pub open spec fn optional_list(p: PropsSpec, key: Seq<char>) -> Option<Seq<Seq<char>>> {
    match prop_of(p, key) {
        None => Some(Seq::empty()),
        Some(PropSpec::StrList(l)) => Some(l),
        _ => None,
    }
}

/// A numeric property that must be present.
pub open spec fn required_num(p: PropsSpec, key: Seq<char>) -> Option<int> {
    match prop_of(p, key) {
        Some(v) => num_of(v),
        None => None,
    }
}

/// A numeric property that reads as `0` where it is absent.
pub open spec fn optional_num(p: PropsSpec, key: Seq<char>) -> Option<int> {
    match prop_of(p, key) {
        Some(v) => num_of(v),
        None => Some(0),
    }
}

pub fn clone_strings(v: &Vec<String>) -> (r: Vec<String>)
    ensures
        r.deep_view() == v.deep_view(),
{
    let mut r: Vec<String> = Vec::new();
    let mut i: usize = 0;
    while i < v.len()
        invariant
            i <= v@.len(),
            r@.len() == i,
            forall|j: int| 0 <= j < i ==> (#[trigger] r@[j])@ == v@[j]@,
        decreases v@.len() - i,
    {
        r.push(v[i].clone());
        i = i + 1;
    }
    assert(r.deep_view() =~= v.deep_view()) by {
        assert forall|j: int| 0 <= j < r@.len() implies r.deep_view()[j] == v.deep_view()[j] by {
            assert(r@[j]@ == v@[j]@);
        }
    }
    r
}

impl PropValue {
    pub fn duplicate(&self) -> (r: PropValue)
        ensures
            r@ == self@,
    {
        match self {
            PropValue::Str(s) => PropValue::Str(s.clone()),
            PropValue::Int(i) => PropValue::Int(*i),
            PropValue::Float(b) => PropValue::Float(*b),
            PropValue::Bool(b) => PropValue::Bool(*b),
            PropValue::StrList(l) => PropValue::StrList(clone_strings(l)),
            PropValue::Unsupported => PropValue::Unsupported,
        }
    }
}

fn num_value(v: &PropValue) -> (r: Option<i32>)
    ensures
        match r {
            Some(x) => num_of(v@) == Some(x as int),
            None => num_of(v@) is None,
        },
{
    match v {
        PropValue::Int(i) => {
            if *i >= i32::MIN as i64 && *i <= i32::MAX as i64 {
                Some(*i as i32)
            } else {
                None
            }
        },
        PropValue::Str(s) => parse_i32(s.as_str()),
        _ => None,
    }
}

impl NodeRecord {
    pub fn required_str(&self, key: &str) -> (r: Option<String>)
        ensures
            match r {
                Some(s) => required_str(self@.props, key@) == Some(s@),
                None => required_str(self@.props, key@) is None,
            },
    {
        match find_prop(&self.props, key) {
            Some(i) => match &self.props[i].1 {
                PropValue::Str(s) => Some(s.clone()),
                _ => None,
            },
            None => None,
        }
    }

    pub fn optional_str(&self, key: &str, default: &str) -> (r: Option<String>)
        ensures
            match r {
                Some(v) => optional_str(self@.props, key@, default@) == Some(v@),
                None => optional_str(self@.props, key@, default@) is None,
            },
    {
        match find_prop(&self.props, key) {
            Some(i) => match &self.props[i].1 {
                PropValue::Str(s) => Some(s.clone()),
                _ => None,
            },
            None => Some(String::from_str(default)),
        }
    }

    pub fn optional_bool(&self, key: &str) -> (r: Option<bool>)
        ensures
            r == optional_bool(self@.props, key@),
    {
        match find_prop(&self.props, key) {
            Some(i) => match &self.props[i].1 {
                PropValue::Bool(b) => Some(*b),
                _ => None,
            },
            None => Some(false),
        }
    }

    pub fn optional_float(&self, key: &str) -> (r: Option<u64>)
        ensures
            r == optional_float(self@.props, key@),
    {
        match find_prop(&self.props, key) {
            Some(i) => match &self.props[i].1 {
                PropValue::Float(b) => Some(*b),
                _ => None,
            },
            None => Some(0),
        }
    }

    pub fn optional_list(&self, key: &str) -> (r: Option<Vec<String>>)
        ensures
            match r {
                Some(v) => optional_list(self@.props, key@) == Some(v.deep_view()),
                None => optional_list(self@.props, key@) is None,
            },
    {
        match find_prop(&self.props, key) {
            Some(i) => match &self.props[i].1 {
                PropValue::StrList(l) => Some(clone_strings(l)),
                _ => None,
            },
            None => {
                let r: Vec<String> = Vec::new();
                assert(r.deep_view() =~= Seq::<Seq<char>>::empty());
                Some(r)
            },
        }
    }

    pub fn required_num(&self, key: &str) -> (r: Option<i32>)
        ensures
            match r {
                Some(x) => required_num(self@.props, key@) == Some(x as int),
                None => required_num(self@.props, key@) is None,
            },
    {
        match find_prop(&self.props, key) {
            Some(i) => num_value(&self.props[i].1),
            None => None,
        }
    }

    pub fn optional_num(&self, key: &str) -> (r: Option<i32>)
        ensures
            match r {
                Some(x) => optional_num(self@.props, key@) == Some(x as int),
                None => optional_num(self@.props, key@) is None,
            },
    {
        match find_prop(&self.props, key) {
            Some(i) => num_value(&self.props[i].1),
            None => Some(0),
        }
    }
}


/// A column of a result row: a node, a collected list of nodes, or anything else.
#[derive(Debug)]
pub enum Cell {
    Node(NodeRecord),
    Nodes(Vec<NodeRecord>),
    Other,
}

pub enum CellView {
    Node(NodeView),
    Nodes(Seq<NodeView>),
    Other,
}

impl View for Cell {
    type V = CellView;

    open spec fn view(&self) -> CellView {
        match self {
            Cell::Node(n) => CellView::Node(n@),
            Cell::Nodes(ns) => CellView::Nodes(ns@.map_values(|n: NodeRecord| n@)),
            Cell::Other => CellView::Other,
        }
    }
}

/// A result row: its columns by name.
#[derive(Debug)]
pub struct Row {
    pub columns: Vec<(String, Cell)>,
}

pub type RowView = Seq<(Seq<char>, CellView)>;

impl View for Row {
    type V = RowView;

    open spec fn view(&self) -> RowView {
        pairs_view(self.columns@)
    }
}

/// The node in column `key` of a row, if that column holds a node.
pub open spec fn row_node(row: RowView, key: Seq<char>) -> Option<NodeView> {
    match lookup(row, key) {
        Some(CellView::Node(n)) => Some(n),
        _ => None,
    }
}

/// The nodes in column `key` of a row, if that column holds a list of nodes.
pub open spec fn row_nodes(row: RowView, key: Seq<char>) -> Option<Seq<NodeView>> {
    match lookup(row, key) {
        Some(CellView::Nodes(ns)) => Some(ns),
        _ => None,
    }
}

impl Row {
    pub fn node(&self, key: &str) -> (r: Option<&NodeRecord>)
        ensures
            match r {
                Some(n) => row_node(self@, key@) == Some(n@),
                None => row_node(self@, key@) is None,
            },
    {
        match find_key(&self.columns, key) {
            Some(i) => match &self.columns[i].1 {
                Cell::Node(n) => Some(n),
                _ => None,
            },
            None => None,
        }
    }

    pub fn nodes(&self, key: &str) -> (r: Option<&Vec<NodeRecord>>)
        ensures
            match r {
                Some(ns) => row_nodes(self@, key@) == Some(ns@.map_values(|n: NodeRecord| n@)),
                None => row_nodes(self@, key@) is None,
            },
    {
        match find_key(&self.columns, key) {
            Some(i) => match &self.columns[i].1 {
                Cell::Nodes(ns) => Some(ns),
                _ => None,
            },
            None => None,
        }
    }
}

} // verus!
