//! Parameterized graph statements: node creation, update, deletion, relationship
//! creation and general reads. Every value is bound as a named parameter; only
//! labels, relationship types and property names stand in the statement text.
use vstd::prelude::*;
use crate::entity::FromNode;
use crate::error::ApiError;
use crate::node::{
    find_prop, lookup, names_of, props_view, row_node, PropSpec, PropValue, PropsSpec, Row, RowView,
};

verus! {

/// A statement ready to be sent to the graph store: its text and its bound parameters.
#[derive(Debug)]
pub struct Statement {
    pub text: String,
    pub params: Vec<(String, PropValue)>,
}

pub struct StatementView {
    pub text: Seq<char>,
    pub params: PropsSpec,
}

impl View for Statement {
    type V = StatementView;

    open spec fn view(&self) -> StatementView {
        StatementView { text: self.text@, params: props_view(self.params@) }
    }
}

/// No two entries share a name.
pub open spec fn names_unique<V>(s: Seq<(Seq<char>, V)>) -> bool {
    forall|i: int, j: int| 0 <= i < s.len() && 0 <= j < s.len() && i != j ==> s[i].0 != s[j].0
}

/// `s` with `key` bound to `v`: the entry of that name replaced in place, or a new
/// entry at the end.
pub open spec fn with_entry<V>(s: Seq<(Seq<char>, V)>, key: Seq<char>, v: V) -> Seq<(Seq<char>, V)> {
    if exists|i: int| 0 <= i < s.len() && s[i].0 == key {
        s.update(choose|i: int| 0 <= i < s.len() && s[i].0 == key, (key, v))
    } else {
        s.push((key, v))
    }
}

/// `var.key = $<prefix>key`: the property set from the parameter bound for it.
pub open spec fn assignment(var: Seq<char>, prefix: Seq<char>, key: Seq<char>) -> Seq<char> {
    var + "."@ + key + " = $"@ + prefix + key
}

/// The assignments of each name, in order, separated by `, `.
pub open spec fn assignments(var: Seq<char>, prefix: Seq<char>, keys: Seq<Seq<char>>) -> Seq<char>
    decreases keys.len(),
{
    if keys.len() == 0 {
        Seq::empty()
    } else if keys.len() == 1 {
        assignment(var, prefix, keys[0])
    } else {
        assignments(var, prefix, keys.drop_last()) + ", "@ + assignment(var, prefix, keys.last())
    }
}

/// Each entry's name with `prefix` in front: node properties are bound as
/// `prop_<name>` and edge properties as `edge_<name>`, so that no property can take
/// the name of another parameter (`node_id`, `from_id`, `to_id`).
pub open spec fn prefixed(prefix: Seq<char>, s: PropsSpec) -> PropsSpec {
    s.map_values(|e: (Seq<char>, PropSpec)| (prefix + e.0, e.1))
}

pub open spec fn create_text(label: Seq<char>, keys: Seq<Seq<char>>) -> Seq<char> {
    "CREATE (n:"@ + label + ") SET "@ + assignments("n"@, "prop_"@, keys) + " RETURN n, ID(n) AS id"@
}

pub open spec fn update_text(label: Seq<char>, keys: Seq<Seq<char>>) -> Seq<char> {
    "MATCH (n:"@ + label + ") WHERE n.id = $node_id SET "@ + assignments("n"@, "prop_"@, keys) + " RETURN n"@
}

/// The deletion returns one row, with the deleted id in column `deleted`, per node it
/// removed.
pub open spec fn delete_text(label: Seq<char>) -> Seq<char> {
    "MATCH (n:"@ + label + ") WHERE n.id = $id WITH n, n.id AS deleted DETACH DELETE n RETURN deleted"@
}

pub open spec fn relationship_text(
    from_label: Seq<char>,
    to_label: Seq<char>,
    rel_type: Seq<char>,
    keys: Seq<Seq<char>>,
) -> Seq<char> {
    "MATCH (a:"@ + from_label + " {id: $from_id}) MATCH (b:"@ + to_label + " {id: $to_id}) CREATE (a)-[r:"@
        + rel_type + "]->(b)"@ + (if keys.len() == 0 {
        Seq::empty()
    } else {
        " SET "@ + assignments("r"@, "edge_"@, keys)
    }) + " RETURN r"@
}

proof fn lemma_assignments_step(var: Seq<char>, prefix: Seq<char>, keys: Seq<Seq<char>>, i: int)
    requires
        0 <= i < keys.len(),
    ensures
        assignments(var, prefix, keys.take(i + 1)) == assignments(var, prefix, keys.take(i)) + (if i == 0 {
            Seq::<char>::empty()
        } else {
            ", "@
        }) + assignment(var, prefix, keys[i]),
{
    let t = keys.take(i + 1);
    assert(t.drop_last() =~= keys.take(i));
    assert(t.last() == keys[i]);
    if i == 0 {
        assert(keys.take(0) =~= Seq::<Seq<char>>::empty());
        assert(assignments(var, prefix, keys.take(0)) =~= Seq::<char>::empty());
        assert(Seq::<char>::empty() + Seq::<char>::empty() + assignment(var, prefix, keys[0]) =~= assignment(
            var,
            prefix,
            keys[0],
        ));
    }
}

/// Appends the assignments of the entries' names to `out`.
fn push_assignments(out: &mut String, var: &str, prefix: &str, props: &Vec<(String, PropValue)>)
    ensures
        final(out)@ == old(out)@ + assignments(var@, prefix@, names_of(props_view(props@))),
{
    let ghost start = out@;
    let ghost keys = names_of(props_view(props@));
    let mut i: usize = 0;
    while i < props.len()
        invariant
            i <= props@.len(),
            keys == names_of(props_view(props@)),
            keys.len() == props@.len(),
            out@ == start + assignments(var@, prefix@, keys.take(i as int)),
        decreases props@.len() - i,
    {
        proof {
            lemma_assignments_step(var@, prefix@, keys, i as int);
        }
        assert(keys[i as int] == props@[i as int].0@);
        if i > 0 {
            out.append(", ");
        }
        out.append(var);
        out.append(".");
        out.append(props[i].0.as_str());
        out.append(" = $");
        out.append(prefix);
        out.append(props[i].0.as_str());
        i = i + 1;
        assert(out@ =~= start + assignments(var@, prefix@, keys.take(i as int)));
    }
    assert(keys.take(i as int) =~= keys);
}

/// The entries with `prefix` in front of each name, in order.
fn prefix_names(props: Vec<(String, PropValue)>, prefix: &str) -> (r: Vec<(String, PropValue)>)
    ensures
        props_view(r@) == prefixed(prefix@, props_view(props@)),
{
    let mut out: Vec<(String, PropValue)> = Vec::new();
    let mut rest = props;
    let ghost all = rest@;
    let n = rest.len();
    let mut i: usize = 0;
    while i < n
        invariant
            n == all.len(),
            i <= n,
            rest@ == all.skip(i as int),
            out@.len() == i,
            props_view(out@) == prefixed(prefix@, props_view(all)).take(i as int),
        decreases n - i,
    {
        let (k, v) = rest.remove(0);
        assert(all[i as int] == (k, v));
        let mut name = String::from_str(prefix);
        name.append(k.as_str());
        out.push((name, v));
        i = i + 1;
        assert(rest@ =~= all.skip(i as int));
        assert(props_view(out@) =~= prefixed(prefix@, props_view(all)).take(i as int));
    }
    assert(prefixed(prefix@, props_view(all)).take(n as int) =~= prefixed(prefix@, props_view(all)));
    out
}

/// Binds `key` to `val` in `props`, replacing an entry of that name.
pub fn set_entry(props: &mut Vec<(String, PropValue)>, key: &str, val: PropValue)
    requires
        names_unique(props_view(old(props)@)),
    ensures
        names_unique(props_view(final(props)@)),
        props_view(final(props)@) == with_entry(props_view(old(props)@), key@, val@),
{
    let ghost pv = props_view(props@);
    let entry = (String::from_str(key), val);
    match find_prop(props, key) {
        Some(i) => {
            proof {
                let c = choose|j: int| 0 <= j < pv.len() && pv[j].0 == key@;
                assert(pv[i as int].0 == key@);
                assert(c == i);
            }
            props.set(i, entry);
            assert(props_view(props@) =~= with_entry(pv, key@, val@));
        },
        None => {
            assert(!exists|j: int| 0 <= j < pv.len() && pv[j].0 == key@);
            props.push(entry);
            assert(props_view(props@) =~= with_entry(pv, key@, val@));
        },
    }
}


/// The parameters of a node creation: the caller's, plus an `id` where they hold none.
pub open spec fn with_id(props: PropsSpec, fresh_id: Seq<char>) -> PropsSpec {
    if lookup(props, "id"@) is Some {
        props
    } else {
        props.push(("id"@, PropSpec::Str(fresh_id)))
    }
}

/// Relies on `uuid::Uuid::new_v4` and its `Display`: a random identifier, written as
/// 36 characters in the hyphenated form.
#[verifier::external_body]
fn new_node_id() -> (r: String)
    ensures
        r@.len() == 36,
{
    uuid::Uuid::new_v4().to_string()
}

/// Builder of a node creation.
pub struct Neo4jCreate {
    label: String,
    props: Vec<(String, PropValue)>,
}

pub struct CreateView {
    pub label: Seq<char>,
    pub props: PropsSpec,
}

impl View for Neo4jCreate {
    type V = CreateView;

    closed spec fn view(&self) -> CreateView {
        CreateView { label: self.label@, props: props_view(self.props@) }
    }
}

impl Neo4jCreate {
    pub open spec fn wf(&self) -> bool {
        names_unique(self@.props)
    }

    pub fn new(label: &str) -> (r: Neo4jCreate)
        ensures
            r@.label == label@,
            r@.props == Seq::<(Seq<char>, PropSpec)>::empty(),
            r.wf(),
    {
        let r = Neo4jCreate { label: String::from_str(label), props: Vec::new() };
        assert(r@.props =~= Seq::<(Seq<char>, PropSpec)>::empty());
        r
    }

    /// Binds a property; a second binding of the same name replaces the first.
    pub fn prop(self, key: &str, val: PropValue) -> (r: Neo4jCreate)
        requires
            self.wf(),
        ensures
            r.wf(),
            r@.label == self@.label,
            r@.props == with_entry(self@.props, key@, val@),
    {
        let mut props = self.props;
        set_entry(&mut props, key, val);
        Neo4jCreate { label: self.label, props }
    }

    /// The statement that creates the node, with `fresh_id` as its `id` where the
    /// caller bound none.
    pub fn build_with_id(self, fresh_id: String) -> (r: Statement)
        requires
            self.wf(),
        ensures
            r@.params == prefixed("prop_"@, with_id(self@.props, fresh_id@)),
            r@.text == create_text(self@.label, names_of(with_id(self@.props, fresh_id@))),
            names_unique(with_id(self@.props, fresh_id@)),
    {
        let mut props = self.props;
        let ghost before = props_view(props@);
        if find_prop(&props, "id").is_none() {
            props.push((String::from_str("id"), PropValue::Str(fresh_id)));
            assert(props_view(props@) =~= before.push(("id"@, PropSpec::Str(fresh_id@))));
        }
        let mut text = String::from_str("CREATE (n:");
        text.append(self.label.as_str());
        text.append(") SET ");
        push_assignments(&mut text, "n", "prop_", &props);
        text.append(" RETURN n, ID(n) AS id");
        Statement { text, params: prefix_names(props, "prop_") }
    }

    /// The statement that creates the node, with a random `id` where the caller bound none.
    pub fn build(self) -> (r: Statement)
        requires
            self.wf(),
        ensures
            lookup(self@.props, "id"@) is Some ==> r@.params == prefixed("prop_"@, self@.props),
            exists|id: Seq<char>| id.len() == 36 && r@.params == prefixed("prop_"@, with_id(self@.props, id))
                && r@.text == create_text(self@.label, names_of(with_id(self@.props, id))),
    {
        let id = new_node_id();
        let ghost g = id@;
        let r = self.build_with_id(id);
        assert(g.len() == 36 && r@.params == prefixed("prop_"@, with_id(self@.props, g)) && r@.text
            == create_text(self@.label, names_of(with_id(self@.props, g))));
        r
    }
}

/// Builder of a node update, matched by `id`.
pub struct Neo4jUpdate {
    label: String,
    node_id: Option<String>,
    props: Vec<(String, PropValue)>,
}

pub struct UpdateView {
    pub label: Seq<char>,
    pub node_id: Option<Seq<char>>,
    pub props: PropsSpec,
}

impl View for Neo4jUpdate {
    type V = UpdateView;

    closed spec fn view(&self) -> UpdateView {
        UpdateView {
            label: self.label@,
            node_id: match self.node_id {
                Some(s) => Some(s@),
                None => None,
            },
            props: props_view(self.props@),
        }
    }
}

/// An update is sent only with a node id and at least one property.
pub open spec fn update_accepted(u: UpdateView) -> bool {
    u.node_id is Some && u.props.len() > 0
}

/// The parameters of an update: the node id under `node_id`, then the properties, each
/// under `prop_<name>`.
pub open spec fn update_params(u: UpdateView) -> PropsSpec {
    seq![("node_id"@, PropSpec::Str(u.node_id->Some_0))] + prefixed("prop_"@, u.props)
}

impl Neo4jUpdate {
    pub open spec fn wf(&self) -> bool {
        names_unique(self@.props)
    }

    pub fn new(label: &str) -> (r: Neo4jUpdate)
        ensures
            r@.label == label@,
            r@.node_id is None,
            r@.props == Seq::<(Seq<char>, PropSpec)>::empty(),
            r.wf(),
    {
        let r = Neo4jUpdate { label: String::from_str(label), node_id: None, props: Vec::new() };
        assert(r@.props =~= Seq::<(Seq<char>, PropSpec)>::empty());
        r
    }

    pub fn node(self, id: &str) -> (r: Neo4jUpdate)
        requires
            self.wf(),
        ensures
            r.wf(),
            r@ == (UpdateView { node_id: Some(id@), ..self@ }),
    {
        Neo4jUpdate { label: self.label, node_id: Some(String::from_str(id)), props: self.props }
    }

    /// Binds a property; a second binding of the same name replaces the first.
    pub fn prop(self, key: &str, val: PropValue) -> (r: Neo4jUpdate)
        requires
            self.wf(),
        ensures
            r.wf(),
            r@ == (UpdateView { props: with_entry(self@.props, key@, val@), ..self@ }),
    {
        let mut props = self.props;
        set_entry(&mut props, key, val);
        Neo4jUpdate { label: self.label, node_id: self.node_id, props }
    }

    /// The statement that updates the node. An `Internal` error where no node id was
    /// given; a `Validation` error where no property was bound.
    pub fn build(self) -> (r: Result<Statement, ApiError>)
        requires
            self.wf(),
        ensures
            r is Ok <==> update_accepted(self@),
            match r {
                Ok(st) => st@.text == update_text(self@.label, names_of(self@.props))
                    && st@.params == update_params(self@),
                Err(e) => if self@.node_id is None { e is Internal } else { e is Validation },
            },
    {
        let ghost v = self@;
        let node_id = match self.node_id {
            Some(id) => id,
            None => return Err(ApiError::Internal(String::from_str("node id is required"))),
        };
        if self.props.len() == 0 {
            return Err(ApiError::Validation(String::from_str("no fields to update")));
        }
        let mut text = String::from_str("MATCH (n:");
        text.append(self.label.as_str());
        text.append(") WHERE n.id = $node_id SET ");
        push_assignments(&mut text, "n", "prop_", &self.props);
        text.append(" RETURN n");
        let mut params: Vec<(String, PropValue)> = Vec::new();
        params.push((String::from_str("node_id"), PropValue::Str(node_id)));
        let mut rest = prefix_names(self.props, "prop_");
        params.append(&mut rest);
        assert(props_view(params@) =~= update_params(v));
        Ok(Statement { text, params })
    }
}

/// Builder of a node deletion, matched by `id`; the node's relationships go with it.
pub struct Neo4jDelete {
    label: String,
    node_id: Option<String>,
}

pub struct DeleteView {
    pub label: Seq<char>,
    pub node_id: Option<Seq<char>>,
}

impl View for Neo4jDelete {
    type V = DeleteView;

    closed spec fn view(&self) -> DeleteView {
        DeleteView {
            label: self.label@,
            node_id: match self.node_id {
                Some(s) => Some(s@),
                None => None,
            },
        }
    }
}

impl Neo4jDelete {
    pub fn new(label: &str) -> (r: Neo4jDelete)
        ensures
            r@.label == label@,
            r@.node_id is None,
    {
        Neo4jDelete { label: String::from_str(label), node_id: None }
    }

    pub fn node(self, id: &str) -> (r: Neo4jDelete)
        ensures
            r@.label == self@.label,
            r@.node_id == Some(id@),
    {
        Neo4jDelete { label: self.label, node_id: Some(String::from_str(id)) }
    }

    /// The statement that detaches and deletes the node; an `Internal` error where no
    /// node id was given.
    pub fn build(self) -> (r: Result<Statement, ApiError>)
        ensures
            r is Ok <==> self@.node_id is Some,
            match r {
                Ok(st) => st@.text == delete_text(self@.label)
                    && st@.params == seq![("id"@, PropSpec::Str(self@.node_id->Some_0))],
                Err(e) => e is Internal,
            },
    {
        let node_id = match self.node_id {
            Some(id) => id,
            None => return Err(ApiError::Internal(String::from_str("node id is required"))),
        };
        let mut text = String::from_str("MATCH (n:");
        text.append(self.label.as_str());
        text.append(") WHERE n.id = $id WITH n, n.id AS deleted DETACH DELETE n RETURN deleted");
        let mut params: Vec<(String, PropValue)> = Vec::new();
        params.push((String::from_str("id"), PropValue::Str(node_id)));
        assert(props_view(params@) =~= seq![("id"@, PropSpec::Str(self@.node_id->Some_0))]);
        Ok(Statement { text, params })
    }
}


/// The edge properties after binding each entry in order: a later binding of a
/// name replaces an earlier one.
pub open spec fn bound_in_order(s: PropsSpec) -> PropsSpec
    decreases s.len(),
{
    if s.len() == 0 {
        s
    } else {
        with_entry(bound_in_order(s.drop_last()), s.last().0, s.last().1)
    }
}

/// The edge properties given, none where the option is empty.
pub open spec fn edge_of(props: Option<Vec<(String, PropValue)>>) -> PropsSpec {
    match props {
        Some(p) => props_view(p@),
        None => Seq::empty(),
    }
}

/// The parameters of a relationship creation: the two endpoint ids, then the edge
/// properties, each under `edge_<name>`.
pub open spec fn relationship_params(from_id: Seq<char>, to_id: Seq<char>, edge: PropsSpec) -> PropsSpec {
    seq![("from_id"@, PropSpec::Str(from_id)), ("to_id"@, PropSpec::Str(to_id))] + prefixed(
        "edge_"@,
        bound_in_order(edge),
    )
}

/// The statement that links the node `from_id` to the node `to_id` by a new edge of
/// type `rel_type`, with the given edge properties. Building it never fails: edge
/// properties are bound under `edge_<name>` and cannot clash with the endpoints. Where
/// either endpoint is absent the store matches nothing and creates no edge, which is
/// no error.
pub fn create_relationship(
    from_id: &str,
    to_id: &str,
    from_label: &str,
    to_label: &str,
    rel_type: &str,
    props: Option<Vec<(String, PropValue)>>,
) -> (r: Statement)
    ensures
        r@.params == relationship_params(from_id@, to_id@, edge_of(props)),
        r@.text == relationship_text(from_label@, to_label@, rel_type@, names_of(bound_in_order(edge_of(props)))),
{
    let given = match props {
        Some(p) => p,
        None => Vec::new(),
    };
    let ghost edge = props_view(given@);
    proof {
        assert(props is None ==> edge =~= Seq::<(Seq<char>, PropSpec)>::empty());
        assert(edge == edge_of(props));
    }
    let mut edge_props: Vec<(String, PropValue)> = Vec::new();
    let mut rest = given;
    let ghost all = rest@;
    let mut i: usize = 0;
    let n = rest.len();
    while i < n
        invariant
            n == all.len(),
            rest@ == all.skip(i as int),
            edge == props_view(all),
            edge == edge_of(props),
            i <= n,
            names_unique(props_view(edge_props@)),
            props_view(edge_props@) == bound_in_order(edge.take(i as int)),
        decreases n - i,
    {
        let (k, v) = rest.remove(0);
        assert(all[i as int] == (k, v));
        set_entry(&mut edge_props, k.as_str(), v);
        i = i + 1;
        assert(rest@ =~= all.skip(i as int));
        assert(edge.take(i as int).drop_last() =~= edge.take(i - 1));
    }
    assert(edge.take(n as int) =~= edge);
    let mut text = String::from_str("MATCH (a:");
    text.append(from_label);
    text.append(" {id: $from_id}) MATCH (b:");
    text.append(to_label);
    text.append(" {id: $to_id}) CREATE (a)-[r:");
    text.append(rel_type);
    text.append("]->(b)");
    if edge_props.len() > 0 {
        text.append(" SET ");
        push_assignments(&mut text, "r", "edge_", &edge_props);
    }
    text.append(" RETURN r");
    let mut params: Vec<(String, PropValue)> = Vec::new();
    params.push((String::from_str("from_id"), PropValue::Str(String::from_str(from_id))));
    params.push((String::from_str("to_id"), PropValue::Str(String::from_str(to_id))));
    let mut bound = prefix_names(edge_props, "edge_");
    params.append(&mut bound);
    assert(props_view(params@) =~= relationship_params(from_id@, to_id@, edge_of(props)));
    Statement { text, params }
}

/// The number of edges that a relationship creation made, from the rows it returned
/// (one per edge). No row means that an endpoint matched nothing: no edge was made,
/// and that is no error.
pub fn edges_created(rows: &Vec<Row>) -> (r: usize)
    ensures
        r == rows@.len(),
{
    rows.len()
}

/// The entity decoded from column `key` of a row, if that column holds a node that decodes.
pub open spec fn row_entity<T: FromNode>(row: RowView, key: Seq<char>) -> Option<T::V> {
    match row_node(row, key) {
        Some(n) => T::decoded(n),
        None => None,
    }
}

/// Every row holds, in column `key`, a node that decodes into a `T`.
pub open spec fn rows_decode<T: FromNode>(rows: Seq<RowView>, key: Seq<char>) -> bool {
    forall|i: int| 0 <= i < rows.len() ==> (#[trigger] row_entity::<T>(rows[i], key)) is Some
}

pub open spec fn rows_view(rows: Seq<Row>) -> Seq<RowView> {
    rows.map_values(|r: Row| r@)
}

/// Decodes column `key` of each row, in order. A `Conversion` error where a node does
/// not decode, an `Internal` error where a row holds no node in that column.
pub fn decode_rows<T: FromNode>(rows: &Vec<Row>, key: &str) -> (r: Result<Vec<T>, ApiError>)
    ensures
        r is Ok <==> rows_decode::<T>(rows_view(rows@), key@),
        r matches Ok(v) ==> v@.len() == rows@.len() && forall|i: int|
            0 <= i < rows@.len() ==> row_entity::<T>(#[trigger] rows@[i]@, key@) == Some(v@[i]@),
{
    let mut out: Vec<T> = Vec::new();
    let mut i: usize = 0;
    while i < rows.len()
        invariant
            i <= rows@.len(),
            out@.len() == i,
            forall|j: int| 0 <= j < i ==> row_entity::<T>(#[trigger] rows@[j]@, key@) == Some(out@[j]@),
        decreases rows@.len() - i,
    {
        let node = match rows[i].node(key) {
            Some(n) => n,
            None => {
                assert(row_entity::<T>(rows_view(rows@)[i as int], key@) is None);
                let mut msg = String::from_str("no node in column ");
                msg.append(key);
                return Err(ApiError::Internal(msg));
            },
        };
        let e = match T::from_node(node) {
            Ok(e) => e,
            Err(err) => {
                assert(row_entity::<T>(rows_view(rows@)[i as int], key@) is None);
                return Err(err);
            },
        };
        out.push(e);
        i = i + 1;
    }
    assert forall|j: int| 0 <= j < rows@.len() implies (#[trigger] row_entity::<T>(
        rows_view(rows@)[j],
        key@,
    )) is Some by {
        assert(rows_view(rows@)[j] == rows@[j]@);
    }
    Ok(out)
}

/// Decodes the node that a creation or update returns in column `n` of its first row.
/// `missing` is the error where no row came back.
pub fn decode_first<T: FromNode>(rows: &Vec<Row>, missing: ApiError) -> (r: Result<T, ApiError>)
    ensures
        rows@.len() == 0 ==> r == Err::<T, ApiError>(missing),
        rows@.len() > 0 ==> match r {
            Ok(e) => row_entity::<T>(rows@[0]@, "n"@) == Some(e@),
            Err(_) => row_entity::<T>(rows@[0]@, "n"@) is None,
        },
{
    if rows.len() == 0 {
        return Err(missing);
    }
    match rows[0].node("n") {
        Some(node) => T::from_node(node),
        None => Err(ApiError::Internal(String::from_str("no node in column n"))),
    }
}

/// A general read: a statement template, its bound parameters, and the column that
/// holds the nodes to decode.
pub struct Neo4jQuery {
    cypher: String,
    params: Vec<(String, PropValue)>,
    key: Option<String>,
}

pub struct QueryView {
    pub cypher: Seq<char>,
    pub params: PropsSpec,
    pub key: Option<Seq<char>>,
}

impl View for Neo4jQuery {
    type V = QueryView;

    closed spec fn view(&self) -> QueryView {
        QueryView {
            cypher: self.cypher@,
            params: props_view(self.params@),
            key: match self.key {
                Some(k) => Some(k@),
                None => None,
            },
        }
    }
}

impl Neo4jQuery {
    pub open spec fn wf(&self) -> bool {
        names_unique(self@.params)
    }

    pub fn new(cypher: &str) -> (r: Neo4jQuery)
        ensures
            r@.cypher == cypher@,
            r@.params == Seq::<(Seq<char>, PropSpec)>::empty(),
            r@.key is None,
            r.wf(),
    {
        let r = Neo4jQuery { cypher: String::from_str(cypher), params: Vec::new(), key: None };
        assert(r@.params =~= Seq::<(Seq<char>, PropSpec)>::empty());
        r
    }

    /// Binds a parameter; a second binding of the same name replaces the first.
    pub fn param(self, key: &str, val: PropValue) -> (r: Neo4jQuery)
        requires
            self.wf(),
        ensures
            r.wf(),
            r@ == (QueryView { params: with_entry(self@.params, key@, val@), ..self@ }),
    {
        let mut params = self.params;
        set_entry(&mut params, key, val);
        Neo4jQuery { cypher: self.cypher, params, key: self.key }
    }

    /// Chooses the column whose nodes `fetch` decodes.
    pub fn fetch_key(self, key: &str) -> (r: Neo4jQuery)
        ensures
            r@ == (QueryView { key: Some(key@), ..self@ }),
    {
        Neo4jQuery { cypher: self.cypher, params: self.params, key: Some(String::from_str(key)) }
    }

    /// The statement to send: the template as it stands, and the bound parameters. An
    /// `Internal` error where no result column was chosen, so that such a read is never
    /// sent.
    pub fn statement(&self) -> (r: Result<Statement, ApiError>)
        ensures
            r is Ok <==> self@.key is Some,
            r matches Ok(st) ==> st@.text == self@.cypher && st@.params == self@.params,
            r matches Err(e) ==> e is Internal,
    {
        if self.key.is_none() {
            return Err(ApiError::Internal(String::from_str("no return column chosen")));
        }
        let mut params: Vec<(String, PropValue)> = Vec::new();
        let mut i: usize = 0;
        while i < self.params.len()
            invariant
                i <= self.params@.len(),
                params@.len() == i,
                props_view(params@) == props_view(self.params@).take(i as int),
            decreases self.params@.len() - i,
        {
            params.push((self.params[i].0.clone(), self.params[i].1.duplicate()));
            assert(props_view(params@)[i as int] == props_view(self.params@)[i as int]);
            i = i + 1;
            assert(props_view(params@) =~= props_view(self.params@).take(i as int));
        }
        assert(props_view(self.params@).take(i as int) =~= props_view(self.params@));
        Ok(Statement { text: self.cypher.clone(), params })
    }

    /// Decodes the rows that the statement returned. An `Internal` error where no
    /// column was chosen; otherwise as `decode_rows` on the chosen column.
    pub fn fetch<T: FromNode>(&self, rows: &Vec<Row>) -> (r: Result<Vec<T>, ApiError>)
        ensures
            self@.key is None ==> r is Err && r->Err_0 is Internal,
            self@.key matches Some(k) ==> {
                &&& r is Ok <==> rows_decode::<T>(rows_view(rows@), k)
                &&& r matches Ok(v) ==> v@.len() == rows@.len() && forall|i: int|
                    0 <= i < rows@.len() ==> row_entity::<T>(#[trigger] rows@[i]@, k) == Some(v@[i]@)
            },
    {
        match &self.key {
            Some(k) => decode_rows(rows, k.as_str()),
            None => Err(ApiError::Internal(String::from_str("no return column chosen"))),
        }
    }
}


/// `neo4rs::Graph`, the graph store's connection pool, carried through unopened.
#[verifier::external_type_specification]
#[verifier::external_body]
pub struct ExGraph(neo4rs::Graph);

/// The graph store's client, and the builders of the statements sent through it.
pub struct Neo4jService {
    pub graph: std::sync::Arc<neo4rs::Graph>,
}

impl Neo4jService {
    pub fn new(graph: std::sync::Arc<neo4rs::Graph>) -> (r: Neo4jService)
        ensures
            r.graph == graph,
    {
        Neo4jService { graph }
    }

    pub fn create_node(&self, label: &str) -> (r: Neo4jCreate)
        ensures
            r@.label == label@,
            r@.props == Seq::<(Seq<char>, PropSpec)>::empty(),
            r.wf(),
    {
        Neo4jCreate::new(label)
    }

    pub fn update_node(&self, label: &str) -> (r: Neo4jUpdate)
        ensures
            r@.label == label@,
            r@.node_id is None,
            r@.props == Seq::<(Seq<char>, PropSpec)>::empty(),
            r.wf(),
    {
        Neo4jUpdate::new(label)
    }

    pub fn delete_node(&self, label: &str) -> (r: Neo4jDelete)
        ensures
            r@.label == label@,
            r@.node_id is None,
    {
        Neo4jDelete::new(label)
    }

    pub fn query_nodes(&self, cypher: &str) -> (r: Neo4jQuery)
        ensures
            r@.cypher == cypher@,
            r@.params == Seq::<(Seq<char>, PropSpec)>::empty(),
            r@.key is None,
            r.wf(),
    {
        Neo4jQuery::new(cypher)
    }

    /// As the free function `create_relationship`.
    pub fn create_relationship(
        &self,
        from_id: &str,
        to_id: &str,
        from_label: &str,
        to_label: &str,
        rel_type: &str,
        props: Option<Vec<(String, PropValue)>>,
    ) -> (r: Statement)
        ensures
            r@.params == relationship_params(from_id@, to_id@, edge_of(props)),
            r@.text == relationship_text(
                from_label@,
                to_label@,
                rel_type@,
                names_of(bound_in_order(edge_of(props))),
            ),
    {
        create_relationship(from_id, to_id, from_label, to_label, rel_type, props)
    }
}

} // verus!
