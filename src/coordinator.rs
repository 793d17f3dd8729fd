//! The write and read paths: which statements a request becomes, which cache
//! families a mutation invalidates, and which event announces it.
use vstd::prelude::*;
use crate::cache::{
    all_key, family_pattern, item_key, lemma_family_pattern_covers, pattern_for, pattern_matches,
};
use crate::dtos::{
    CreateCourseRequest, CreateLessonRequest, CreateModuleRequest, UpdateCourseRequest,
    UpdateLessonRequest, UpdateModuleRequest,
};
use crate::entity::{course_of, lesson_of, module_of, CourseView, LessonView, ModuleView};
use crate::error::ApiError;
use crate::node::{
    Row,
    clone_strings, lemma_lookup_absent, lemma_lookup_found, lookup, names_of, NodeView, PropSpec,
    PropValue, PropsSpec,
};
use crate::query::{
    decode_first, row_entity,
    create_relationship, relationship_text, update_text, with_entry, with_id, Neo4jCreate,
    Neo4jQuery, Neo4jUpdate, Statement, UpdateView,
};

verus! {

/// A name that differs from each bound name in length or first character is new.
proof fn lemma_new_entry(s: PropsSpec, k: Seq<char>, v: PropSpec)
    requires
        k.len() > 0,
        forall|i: int| 0 <= i < s.len() ==> s[i].0.len() != k.len() || s[i].0[0] != k[0],
    ensures
        with_entry(s, k, v) == s.push((k, v)),
{
    assert forall|i: int| 0 <= i < s.len() implies s[i].0 != k by {
        if s[i].0.len() == k.len() {
            assert(s[i].0[0] != k[0]);
        }
    }
}

/// The properties that a new lesson is created with.
pub open spec fn lesson_props(r: CreateLessonRequest) -> PropsSpec {
    seq![
        ("title"@, PropSpec::Str(r.title@)),
        ("order"@, PropSpec::Int(r.order as int)),
        ("duration_minutes"@, PropSpec::Int(r.duration_minutes as int)),
        ("prerequisites"@, PropSpec::StrList(r.prerequisites.deep_view())),
        ("completed"@, PropSpec::Bool(false)),
        ("video"@, PropSpec::Str(r.video@)),
    ]
}

/// The creation of a lesson: the request's fields, and `completed` unset.
pub fn create_lesson(req: &CreateLessonRequest) -> (r: Neo4jCreate)
    ensures
        r.wf(),
        r@.label == "Lesson"@,
        r@.props == lesson_props(*req),
{
    proof {
        reveal_strlit("title");
        reveal_strlit("order");
        reveal_strlit("duration_minutes");
        reveal_strlit("prerequisites");
        reveal_strlit("completed");
        reveal_strlit("video");
    }
    let b = Neo4jCreate::new("Lesson");
    let ghost s0 = b@.props;
    let b = b.prop("title", PropValue::Str(req.title.clone()));
    proof { lemma_new_entry(s0, "title"@, PropSpec::Str(req.title@)); }
    let ghost s1 = b@.props;
    let b = b.prop("order", PropValue::Int(req.order as i64));
    proof { lemma_new_entry(s1, "order"@, PropSpec::Int(req.order as int)); }
    let ghost s2 = b@.props;
    let b = b.prop("duration_minutes", PropValue::Int(req.duration_minutes as i64));
    proof { lemma_new_entry(s2, "duration_minutes"@, PropSpec::Int(req.duration_minutes as int)); }
    let ghost s3 = b@.props;
    let b = b.prop("prerequisites", PropValue::StrList(clone_strings(&req.prerequisites)));
    proof { lemma_new_entry(s3, "prerequisites"@, PropSpec::StrList(req.prerequisites.deep_view())); }
    let ghost s4 = b@.props;
    let b = b.prop("completed", PropValue::Bool(false));
    proof { lemma_new_entry(s4, "completed"@, PropSpec::Bool(false)); }
    let ghost s5 = b@.props;
    let b = b.prop("video", PropValue::Str(req.video.clone()));
    proof { lemma_new_entry(s5, "video"@, PropSpec::Str(req.video@)); }
    assert(b@.props =~= lesson_props(*req));
    b
}


/// Two names that differ in length or in their first character.
pub open spec fn distinct_names(a: Seq<char>, b: Seq<char>) -> bool {
    a.len() != b.len() || (a.len() > 0 && b.len() > 0 && a[0] != b[0])
}

proof fn lemma_lookup_at(s: PropsSpec, k: Seq<char>, i: int)
    requires
        0 <= i < s.len(),
        s[i].0 == k,
        forall|j: int| 0 <= j < i ==> distinct_names(s[j].0, k),
    ensures
        lookup(s, k) == Some(s[i].1),
{
    assert forall|j: int| 0 <= j < i implies s[j].0 != k by {
        assert(distinct_names(s[j].0, k));
    }
    lemma_lookup_found(s, k, i);
}

proof fn lemma_lookup_none(s: PropsSpec, k: Seq<char>)
    requires
        forall|j: int| 0 <= j < s.len() ==> distinct_names(s[j].0, k),
    ensures
        lookup(s, k) is None,
{
    assert forall|j: int| 0 <= j < s.len() implies s[j].0 != k by {
        assert(distinct_names(s[j].0, k));
    }
    lemma_lookup_absent(s, k);
}

/// The node that the store holds after a creation statement for these properties has
/// run: each property `k` set from the parameter `prop_k` that carries its value.
pub open spec fn stored_node(label: Seq<char>, params: PropsSpec) -> NodeView {
    NodeView { label, props: params }
}

/// Creating a lesson and reading its node back yields the request's fields, the
/// identifier that the creation bound, and `completed` unset.
pub proof fn lemma_lesson_round_trip(req: CreateLessonRequest, id: Seq<char>)
    ensures
        lesson_of(stored_node("Lesson"@, with_id(lesson_props(req), id))) == Some(
            LessonView {
                id,
                title: req.title@,
                order: req.order as int,
                duration_minutes: req.duration_minutes as int,
                prerequisites: req.prerequisites.deep_view(),
                completed: false,
                video: req.video@,
            },
        ),
{
    reveal_strlit("id");
    reveal_strlit("title");
    reveal_strlit("order");
    reveal_strlit("duration_minutes");
    reveal_strlit("prerequisites");
    reveal_strlit("completed");
    reveal_strlit("video");
    let p = lesson_props(req);
    lemma_lookup_none(p, "id"@);
    let q = p.push(("id"@, PropSpec::Str(id)));
    lemma_lookup_at(q, "title"@, 0);
    lemma_lookup_at(q, "order"@, 1);
    lemma_lookup_at(q, "duration_minutes"@, 2);
    lemma_lookup_at(q, "prerequisites"@, 3);
    lemma_lookup_at(q, "completed"@, 4);
    lemma_lookup_at(q, "video"@, 5);
    lemma_lookup_at(q, "id"@, 6);
}


fn add_new(b: Neo4jCreate, key: &str, val: PropValue) -> (r: Neo4jCreate)
    requires
        b.wf(),
        key@.len() > 0,
        forall|i: int| 0 <= i < b@.props.len() ==> distinct_names(b@.props[i].0, key@),
    ensures
        r.wf(),
        r@.label == b@.label,
        r@.props == b@.props.push((key@, val@)),
{
    proof {
        assert forall|i: int| 0 <= i < b@.props.len() implies b@.props[i].0.len() != key@.len()
            || b@.props[i].0[0] != key@[0] by {
            assert(distinct_names(b@.props[i].0, key@));
        }
        lemma_new_entry(b@.props, key@, val@);
    }
    b.prop(key, val)
}

/// The properties that a new module is created with.
pub open spec fn module_props(r: CreateModuleRequest) -> PropsSpec {
    seq![
        ("title"@, PropSpec::Str(r.title@)),
        ("order"@, PropSpec::Int(r.order as int)),
        ("module_duration_minutes"@, PropSpec::Int(r.module_duration_minutes as int)),
    ]
}

/// The creation of a module from the request's fields (its lessons are linked apart).
pub fn create_module(req: &CreateModuleRequest) -> (r: Neo4jCreate)
    ensures
        r.wf(),
        r@.label == "Module"@,
        r@.props == module_props(*req),
{
    proof {
        reveal_strlit("title");
        reveal_strlit("order");
        reveal_strlit("module_duration_minutes");
    }
    let b = Neo4jCreate::new("Module");
    let b = add_new(b, "title", PropValue::Str(req.title.clone()));
    let b = add_new(b, "order", PropValue::Int(req.order as i64));
    let b = add_new(b, "module_duration_minutes", PropValue::Int(req.module_duration_minutes as i64));
    assert(b@.props =~= module_props(*req));
    b
}

/// The properties that a new course is created with; the total duration is kept as text.
pub open spec fn course_props(r: CreateCourseRequest) -> PropsSpec {
    seq![
        ("title"@, PropSpec::Str(r.title@)),
        ("description"@, PropSpec::Str(r.description@)),
        ("status"@, PropSpec::Str(r.status@)),
        ("category"@, PropSpec::Str(r.category@)),
        ("level"@, PropSpec::Str(r.level@)),
        ("rating"@, PropSpec::Float(r.rating)),
        ("instructor"@, PropSpec::Str(r.instructor@)),
        ("featured"@, PropSpec::Bool(r.featured)),
        ("cover"@, PropSpec::Str(r.cover@)),
        ("prerequisites"@, PropSpec::StrList(r.prerequisites.deep_view())),
        ("documents"@, PropSpec::StrList(r.documents.deep_view())),
        ("total_duration_minutes"@, PropSpec::Str(r.total_duration_minitues@)),
    ]
}

/// The creation of a course from the request's fields (its modules are linked apart).
pub fn create_course(req: &CreateCourseRequest) -> (r: Neo4jCreate)
    ensures
        r.wf(),
        r@.label == "Course"@,
        r@.props == course_props(*req),
{
    proof {
        reveal_strlit("title");
        reveal_strlit("description");
        reveal_strlit("status");
        reveal_strlit("category");
        reveal_strlit("level");
        reveal_strlit("rating");
        reveal_strlit("instructor");
        reveal_strlit("featured");
        reveal_strlit("cover");
        reveal_strlit("prerequisites");
        reveal_strlit("documents");
        reveal_strlit("total_duration_minutes");
    }
    let b = Neo4jCreate::new("Course");
    let b = add_new(b, "title", PropValue::Str(req.title.clone()));
    let b = add_new(b, "description", PropValue::Str(req.description.clone()));
    let b = add_new(b, "status", PropValue::Str(req.status.clone()));
    let b = add_new(b, "category", PropValue::Str(req.category.clone()));
    let b = add_new(b, "level", PropValue::Str(req.level.clone()));
    let b = add_new(b, "rating", PropValue::Float(req.rating));
    let b = add_new(b, "instructor", PropValue::Str(req.instructor.clone()));
    let b = add_new(b, "featured", PropValue::Bool(req.featured));
    let b = add_new(b, "cover", PropValue::Str(req.cover.clone()));
    let b = add_new(b, "prerequisites", PropValue::StrList(clone_strings(&req.prerequisites)));
    let b = add_new(b, "documents", PropValue::StrList(clone_strings(&req.documents)));
    let b = add_new(b, "total_duration_minutes", PropValue::Str(req.total_duration_minitues.clone()));
    assert(b@.props =~= course_props(*req));
    b
}

/// Creating a module and reading its node back yields the request's fields and the
/// identifier that the creation bound.
pub proof fn lemma_module_round_trip(req: CreateModuleRequest, id: Seq<char>)
    ensures
        module_of(stored_node("Module"@, with_id(module_props(req), id))) == Some(
            ModuleView {
                id,
                title: req.title@,
                order: req.order as int,
                module_duration_minutes: req.module_duration_minutes as int,
            },
        ),
{
    reveal_strlit("id");
    reveal_strlit("title");
    reveal_strlit("order");
    reveal_strlit("module_duration_minutes");
    let p = module_props(req);
    lemma_lookup_none(p, "id"@);
    let q = p.push(("id"@, PropSpec::Str(id)));
    lemma_lookup_at(q, "title"@, 0);
    lemma_lookup_at(q, "order"@, 1);
    lemma_lookup_at(q, "module_duration_minutes"@, 2);
    lemma_lookup_at(q, "id"@, 3);
}

/// Creating a course and reading its node back yields the request's fields and the
/// identifier that the creation bound, where its total duration spells a 32-bit integer.
pub proof fn lemma_course_round_trip(req: CreateCourseRequest, id: Seq<char>)
    requires
        crate::node::decimal_i32(req.total_duration_minitues@) is Some,
    ensures
        course_of(stored_node("Course"@, with_id(course_props(req), id))) == Some(
            CourseView {
                id,
                title: req.title@,
                description: req.description@,
                status: req.status@,
                category: req.category@,
                level: req.level@,
                rating: req.rating,
                instructor: req.instructor@,
                featured: req.featured,
                cover: req.cover@,
                prerequisites: req.prerequisites.deep_view(),
                documents: req.documents.deep_view(),
                total_duration_minutes: crate::node::decimal_i32(req.total_duration_minitues@)->Some_0,
            },
        ),
{
    reveal_strlit("id");
    reveal_strlit("title");
    reveal_strlit("description");
    reveal_strlit("status");
    reveal_strlit("category");
    reveal_strlit("level");
    reveal_strlit("rating");
    reveal_strlit("instructor");
    reveal_strlit("featured");
    reveal_strlit("cover");
    reveal_strlit("prerequisites");
    reveal_strlit("documents");
    reveal_strlit("total_duration_minutes");
    let p = course_props(req);
    lemma_lookup_none(p, "id"@);
    let q = p.push(("id"@, PropSpec::Str(id)));
    lemma_lookup_at(q, "title"@, 0);
    lemma_lookup_at(q, "description"@, 1);
    lemma_lookup_at(q, "status"@, 2);
    lemma_lookup_at(q, "category"@, 3);
    lemma_lookup_at(q, "level"@, 4);
    lemma_lookup_at(q, "rating"@, 5);
    lemma_lookup_at(q, "instructor"@, 6);
    lemma_lookup_at(q, "featured"@, 7);
    lemma_lookup_at(q, "cover"@, 8);
    lemma_lookup_at(q, "prerequisites"@, 9);
    lemma_lookup_at(q, "documents"@, 10);
    lemma_lookup_at(q, "total_duration_minutes"@, 11);
    lemma_lookup_at(q, "id"@, 12);
}


/// `s`, with the entry appended where the field is present.
pub open spec fn push_if(s: PropsSpec, present: bool, k: Seq<char>, v: PropSpec) -> PropsSpec {
    if present {
        s.push((k, v))
    } else {
        s
    }
}

pub open spec fn opt_str(v: Option<String>) -> PropSpec {
    PropSpec::Str(v->Some_0@)
}

pub open spec fn opt_list(v: Option<Vec<String>>) -> PropSpec {
    PropSpec::StrList(v->Some_0.deep_view())
}

/// The properties that a lesson update sets: each field that the request holds.
pub open spec fn lesson_update_props(r: UpdateLessonRequest) -> PropsSpec {
    let s = push_if(Seq::empty(), r.title is Some, "title"@, opt_str(r.title));
    let s = push_if(s, r.order is Some, "order"@, PropSpec::Int(r.order->Some_0 as int));
    let s = push_if(s, r.duration_minutes is Some, "duration_minutes"@, PropSpec::Int(r.duration_minutes->Some_0 as int));
    let s = push_if(s, r.prerequisites is Some, "prerequisites"@, opt_list(r.prerequisites));
    let s = push_if(s, r.completed is Some, "completed"@, PropSpec::Bool(r.completed->Some_0));
    push_if(s, r.video is Some, "video"@, opt_str(r.video))
}

/// The properties that a module update sets: each field that the request holds (its
/// lessons are relinked apart).
pub open spec fn module_update_props(r: UpdateModuleRequest) -> PropsSpec {
    let s = push_if(Seq::empty(), r.title is Some, "title"@, opt_str(r.title));
    let s = push_if(s, r.order is Some, "order"@, PropSpec::Int(r.order->Some_0 as int));
    push_if(
        s,
        r.module_duration_minutes is Some,
        "module_duration_minutes"@,
        PropSpec::Int(r.module_duration_minutes->Some_0 as int),
    )
}

/// The properties that a course update sets: each field that the request holds (its
/// modules are relinked apart).
pub open spec fn course_update_props(r: UpdateCourseRequest) -> PropsSpec {
    let s = push_if(Seq::empty(), r.title is Some, "title"@, opt_str(r.title));
    let s = push_if(s, r.description is Some, "description"@, opt_str(r.description));
    let s = push_if(s, r.status is Some, "status"@, opt_str(r.status));
    let s = push_if(s, r.cover is Some, "cover"@, opt_str(r.cover));
    let s = push_if(s, r.prerequisites is Some, "prerequisites"@, opt_list(r.prerequisites));
    let s = push_if(s, r.documents is Some, "documents"@, opt_list(r.documents));
    push_if(s, r.total_duration_minitues is Some, "total_duration_minutes"@, opt_str(r.total_duration_minitues))
}

/// The parameters of an update of node `id` that sets `props`: the id under
/// `node_id`, each property under `prop_<name>`.
pub open spec fn update_params_of(id: Seq<char>, props: PropsSpec) -> PropsSpec {
    seq![("node_id"@, PropSpec::Str(id))] + crate::query::prefixed("prop_"@, props)
}

fn add_set(b: Neo4jUpdate, key: &str, val: PropValue) -> (r: Neo4jUpdate)
    requires
        b.wf(),
        key@.len() > 0,
        forall|i: int| 0 <= i < b@.props.len() ==> distinct_names(b@.props[i].0, key@),
    ensures
        r.wf(),
        r@ == (UpdateView { props: b@.props.push((key@, val@)), ..b@ }),
{
    proof {
        assert forall|i: int| 0 <= i < b@.props.len() implies b@.props[i].0.len() != key@.len()
            || b@.props[i].0[0] != key@[0] by {
            assert(distinct_names(b@.props[i].0, key@));
        }
        lemma_new_entry(b@.props, key@, val@);
    }
    b.prop(key, val)
}

/// Sends an update that sets `props` on node `id`; a `Validation` error where `props`
/// is empty.
fn finish_update(b: Neo4jUpdate, Ghost(props): Ghost<PropsSpec>, Ghost(label): Ghost<Seq<char>>, Ghost(id): Ghost<Seq<char>>) -> (r: Result<Statement, ApiError>)
    requires
        b.wf(),
        b@ == (UpdateView { label, node_id: Some(id), props }),
    ensures
        r is Ok <==> props.len() > 0,
        match r {
            Ok(st) => st@.text == update_text(label, names_of(props)) && st@.params == update_params_of(id, props),
            Err(e) => e is Validation,
        },
{
    b.build()
}

/// The update of lesson `id` that sets each field the request holds; every value is a
/// bound parameter. A `Validation` error where the request holds no field.
pub fn update_lesson(id: &str, req: &UpdateLessonRequest) -> (r: Result<Statement, ApiError>)
    ensures
        r is Ok <==> lesson_update_props(*req).len() > 0,
        match r {
            Ok(st) => st@.text == update_text("Lesson"@, names_of(lesson_update_props(*req)))
                && st@.params == update_params_of(id@, lesson_update_props(*req)),
            Err(e) => e is Validation,
        },
{
    proof {
        reveal_strlit("id");
        reveal_strlit("title");
        reveal_strlit("order");
        reveal_strlit("duration_minutes");
        reveal_strlit("prerequisites");
        reveal_strlit("completed");
        reveal_strlit("video");
    }
    let mut b = Neo4jUpdate::new("Lesson").node(id);
    if let Some(v) = &req.title {
        b = add_set(b, "title", PropValue::Str(v.clone()));
    }
    assert(b@.props =~= push_if(Seq::empty(), req.title is Some, "title"@, opt_str(req.title)));
    let ghost s1 = b@.props;
    if let Some(v) = req.order {
        b = add_set(b, "order", PropValue::Int(v as i64));
    }
    let ghost s2 = b@.props;
    assert(s2 == push_if(s1, req.order is Some, "order"@, PropSpec::Int(req.order->Some_0 as int)));
    if let Some(v) = req.duration_minutes {
        b = add_set(b, "duration_minutes", PropValue::Int(v as i64));
    }
    let ghost s3 = b@.props;
    assert(s3 == push_if(s2, req.duration_minutes is Some, "duration_minutes"@, PropSpec::Int(req.duration_minutes->Some_0 as int)));
    if let Some(v) = &req.prerequisites {
        b = add_set(b, "prerequisites", PropValue::StrList(clone_strings(v)));
    }
    let ghost s4 = b@.props;
    assert(s4 == push_if(s3, req.prerequisites is Some, "prerequisites"@, opt_list(req.prerequisites)));
    if let Some(v) = req.completed {
        b = add_set(b, "completed", PropValue::Bool(v));
    }
    let ghost s5 = b@.props;
    assert(s5 == push_if(s4, req.completed is Some, "completed"@, PropSpec::Bool(req.completed->Some_0)));
    if let Some(v) = &req.video {
        b = add_set(b, "video", PropValue::Str(v.clone()));
    }
    assert(b@.props == lesson_update_props(*req));
    finish_update(b, Ghost(lesson_update_props(*req)), Ghost("Lesson"@), Ghost(id@))
}


/// The update of module `id` that sets each field the request holds; every value is a
/// bound parameter. A `Validation` error where the request holds no field to set.
pub fn update_module(id: &str, req: &UpdateModuleRequest) -> (r: Result<Statement, ApiError>)
    ensures
        r is Ok <==> module_update_props(*req).len() > 0,
        match r {
            Ok(st) => st@.text == update_text("Module"@, names_of(module_update_props(*req)))
                && st@.params == update_params_of(id@, module_update_props(*req)),
            Err(e) => e is Validation,
        },
{
    proof {
        reveal_strlit("id");
        reveal_strlit("title");
        reveal_strlit("order");
        reveal_strlit("module_duration_minutes");
    }
    let mut b = Neo4jUpdate::new("Module").node(id);
    if let Some(v) = &req.title {
        b = add_set(b, "title", PropValue::Str(v.clone()));
    }
    assert(b@.props =~= push_if(Seq::empty(), req.title is Some, "title"@, opt_str(req.title)));
    let ghost s1 = b@.props;
    if let Some(v) = req.order {
        b = add_set(b, "order", PropValue::Int(v as i64));
    }
    let ghost s2 = b@.props;
    assert(s2 == push_if(s1, req.order is Some, "order"@, PropSpec::Int(req.order->Some_0 as int)));
    if let Some(v) = req.module_duration_minutes {
        b = add_set(b, "module_duration_minutes", PropValue::Int(v as i64));
    }
    assert(b@.props == module_update_props(*req));
    finish_update(b, Ghost(module_update_props(*req)), Ghost("Module"@), Ghost(id@))
}

/// The update of course `id` that sets each field the request holds; every value is a
/// bound parameter. A `Validation` error where the request holds no field to set.
pub fn update_course(id: &str, req: &UpdateCourseRequest) -> (r: Result<Statement, ApiError>)
    ensures
        r is Ok <==> course_update_props(*req).len() > 0,
        match r {
            Ok(st) => st@.text == update_text("Course"@, names_of(course_update_props(*req)))
                && st@.params == update_params_of(id@, course_update_props(*req)),
            Err(e) => e is Validation,
        },
{
    proof {
        reveal_strlit("id");
        reveal_strlit("title");
        reveal_strlit("description");
        reveal_strlit("status");
        reveal_strlit("cover");
        reveal_strlit("prerequisites");
        reveal_strlit("documents");
        reveal_strlit("total_duration_minutes");
    }
    let mut b = Neo4jUpdate::new("Course").node(id);
    if let Some(v) = &req.title {
        b = add_set(b, "title", PropValue::Str(v.clone()));
    }
    assert(b@.props =~= push_if(Seq::empty(), req.title is Some, "title"@, opt_str(req.title)));
    let ghost s1 = b@.props;
    if let Some(v) = &req.description {
        b = add_set(b, "description", PropValue::Str(v.clone()));
    }
    let ghost s2 = b@.props;
    assert(s2 == push_if(s1, req.description is Some, "description"@, opt_str(req.description)));
    if let Some(v) = &req.status {
        b = add_set(b, "status", PropValue::Str(v.clone()));
    }
    let ghost s3 = b@.props;
    assert(s3 == push_if(s2, req.status is Some, "status"@, opt_str(req.status)));
    if let Some(v) = &req.cover {
        b = add_set(b, "cover", PropValue::Str(v.clone()));
    }
    let ghost s4 = b@.props;
    assert(s4 == push_if(s3, req.cover is Some, "cover"@, opt_str(req.cover)));
    if let Some(v) = &req.prerequisites {
        b = add_set(b, "prerequisites", PropValue::StrList(clone_strings(v)));
    }
    let ghost s5 = b@.props;
    assert(s5 == push_if(s4, req.prerequisites is Some, "prerequisites"@, opt_list(req.prerequisites)));
    if let Some(v) = &req.documents {
        b = add_set(b, "documents", PropValue::StrList(clone_strings(v)));
    }
    let ghost s6 = b@.props;
    assert(s6 == push_if(s5, req.documents is Some, "documents"@, opt_list(req.documents)));
    if let Some(v) = &req.total_duration_minitues {
        b = add_set(b, "total_duration_minutes", PropValue::Str(v.clone()));
    }
    assert(b@.props == course_update_props(*req));
    finish_update(b, Ghost(course_update_props(*req)), Ghost("Course"@), Ghost(id@))
}

/// The text of a module update depends on which fields the request holds and never on
/// their values: requests that hold the same fields give the same statement text, so a
/// value (a quote in a title, say) cannot change what the statement does; the values
/// travel as parameters alone.
pub proof fn lemma_update_text_ignores_values(a: UpdateModuleRequest, b: UpdateModuleRequest)
    requires
        (a.title is Some) == (b.title is Some),
        (a.order is Some) == (b.order is Some),
        (a.module_duration_minutes is Some) == (b.module_duration_minutes is Some),
    ensures
        names_of(module_update_props(a)) == names_of(module_update_props(b)),
        update_text("Module"@, names_of(module_update_props(a))) == update_text(
            "Module"@,
            names_of(module_update_props(b)),
        ),
{
    assert(names_of(module_update_props(a)) =~= names_of(module_update_props(b)));
}

/// The same holds of lesson updates: the text follows from which fields are present.
pub proof fn lemma_lesson_update_text_ignores_values(a: UpdateLessonRequest, b: UpdateLessonRequest)
    requires
        (a.title is Some) == (b.title is Some),
        (a.order is Some) == (b.order is Some),
        (a.duration_minutes is Some) == (b.duration_minutes is Some),
        (a.prerequisites is Some) == (b.prerequisites is Some),
        (a.completed is Some) == (b.completed is Some),
        (a.video is Some) == (b.video is Some),
    ensures
        update_text("Lesson"@, names_of(lesson_update_props(a))) == update_text(
            "Lesson"@,
            names_of(lesson_update_props(b)),
        ),
{
    assert(names_of(lesson_update_props(a)) =~= names_of(lesson_update_props(b)));
}

/// The update that marks lesson `id` completed.
pub fn complete_lesson(id: &str) -> (r: Statement)
    ensures
        r@.text == update_text("Lesson"@, seq!["completed"@]),
        r@.params == update_params_of(id@, seq![("completed"@, PropSpec::Bool(true))]),
{
    proof {
        reveal_strlit("id");
        reveal_strlit("completed");
    }
    let b = Neo4jUpdate::new("Lesson").node(id);
    let b = add_set(b, "completed", PropValue::Bool(true));
    let ghost props = seq![("completed"@, PropSpec::Bool(true))];
    assert(b@.props =~= props);
    assert(names_of(props) =~= seq!["completed"@]);
    match finish_update(b, Ghost(props), Ghost("Lesson"@), Ghost(id@)) {
        Ok(st) => st,
        Err(_) => {
            assert(false);
            Statement { text: String::new(), params: Vec::new() }
        },
    }
}

/// One edge from `from_id` to each of `to_ids`, in order, with no edge properties. An
/// identifier that matches no node gives a statement that creates nothing.
pub fn link_all(from_id: &str, to_ids: &Vec<String>, from_label: &str, to_label: &str, rel_type: &str) -> (r: Vec<Statement>)
    ensures
        r@.len() == to_ids@.len(),
        forall|i: int| 0 <= i < r@.len() ==> {
            &&& (#[trigger] r@[i])@.text == relationship_text(from_label@, to_label@, rel_type@, Seq::empty())
            &&& r@[i]@.params == seq![
                ("from_id"@, PropSpec::Str(from_id@)),
                ("to_id"@, PropSpec::Str(to_ids@[i]@)),
            ]
        },
{
    let mut out: Vec<Statement> = Vec::new();
    let mut i: usize = 0;
    while i < to_ids.len()
        invariant
            i <= to_ids@.len(),
            out@.len() == i,
            forall|j: int| 0 <= j < i ==> {
                &&& (#[trigger] out@[j])@.text == relationship_text(from_label@, to_label@, rel_type@, Seq::empty())
                &&& out@[j]@.params == seq![
                    ("from_id"@, PropSpec::Str(from_id@)),
                    ("to_id"@, PropSpec::Str(to_ids@[j]@)),
                ]
            },
        decreases to_ids@.len() - i,
    {
        let r = create_relationship(from_id, to_ids[i].as_str(), from_label, to_label, rel_type, None);
        proof {
            let e = crate::query::edge_of(None);
            assert(e =~= Seq::<(Seq<char>, PropSpec)>::empty());
            assert(crate::query::bound_in_order(e) =~= Seq::<(Seq<char>, PropSpec)>::empty());
            assert(names_of(crate::query::bound_in_order(e)) =~= Seq::<Seq<char>>::empty());
        }
        assert(crate::query::prefixed("edge_"@, crate::query::bound_in_order(crate::query::edge_of(None)))
            =~= Seq::<(Seq<char>, PropSpec)>::empty());
        assert(r@.params =~= seq![
            ("from_id"@, PropSpec::Str(from_id@)),
            ("to_id"@, PropSpec::Str(to_ids@[i as int]@)),
        ]);
        out.push(r);
        i = i + 1;
    }
    out
}

/// The read that removes every edge of type `rel_type` leaving node `id` of `label`,
/// before the edges are made anew.
pub fn unlink_all(label: &str, id: &str, rel_type: &str) -> (r: Statement)
    ensures
        r@.text == "MATCH (x:"@ + label@ + " {id: $id})-[r:"@ + rel_type@ + "]->() DELETE r"@,
        r@.params == seq![("id"@, PropSpec::Str(id@))],
{
    let mut text = String::from_str("MATCH (x:");
    text.append(label);
    text.append(" {id: $id})-[r:");
    text.append(rel_type);
    text.append("]->() DELETE r");
    let mut params: Vec<(String, PropValue)> = Vec::new();
    params.push((String::from_str("id"), PropValue::Str(String::from_str(id))));
    assert(crate::node::props_view(params@) =~= seq![("id"@, PropSpec::Str(id@))]);
    Statement { text, params }
}


/// The kinds of content.
#[derive(Debug, Clone, Copy, PartialEq, Eq, Structural)]
pub enum Resource {
    Course,
    Module,
    Lesson,
}

/// The kinds of change.
#[derive(Debug, Clone, Copy, PartialEq, Eq, Structural)]
pub enum Mutation {
    Created,
    Updated,
    Deleted,
    Completed,
}

/// The cache family under which a resource's reads are kept.
pub open spec fn family_of(r: Resource) -> Seq<char> {
    match r {
        Resource::Course => "programs"@,
        Resource::Module => "modules"@,
        Resource::Lesson => "lessons"@,
    }
}

/// The families whose cached reads embed a resource: its own, and those of the
/// resources that contain it (a course read embeds its modules and their lessons).
pub open spec fn affected_families(r: Resource) -> Seq<Seq<char>> {
    match r {
        Resource::Course => seq!["programs"@],
        Resource::Module => seq!["modules"@, "programs"@],
        Resource::Lesson => seq!["lessons"@, "modules"@, "programs"@],
    }
}

pub open spec fn resource_word(r: Resource) -> Seq<char> {
    match r {
        Resource::Course => "course"@,
        Resource::Module => "module"@,
        Resource::Lesson => "lesson"@,
    }
}

pub open spec fn mutation_word(m: Mutation) -> Seq<char> {
    match m {
        Mutation::Created => "created"@,
        Mutation::Updated => "updated"@,
        Mutation::Deleted => "deleted"@,
        Mutation::Completed => "completed"@,
    }
}

/// The event type that announces a mutation: `<resource>_<change>`, as `lesson_updated`.
pub open spec fn event_name(r: Resource, m: Mutation) -> Seq<char> {
    resource_word(r) + "_"@ + mutation_word(m)
}

/// What follows a committed mutation: the event to publish, and the cache patterns to
/// purge.
#[derive(Debug)]
pub struct InvalidationPlan {
    pub event_type: String,
    pub resource_id: String,
    pub patterns: Vec<String>,
}

/// The plan after `mutation` of the resource `id`: the event named for it, and one
/// pattern for each family whose reads embed the resource.
pub fn plan_invalidation(resource: Resource, mutation: Mutation, id: &str) -> (r: InvalidationPlan)
    ensures
        r.event_type@ == event_name(resource, mutation),
        r.resource_id@ == id@,
        r.patterns@.len() == affected_families(resource).len(),
        forall|i: int| 0 <= i < r.patterns@.len() ==> (#[trigger] r.patterns@[i])@ == family_pattern(
            affected_families(resource)[i],
        ),
{
    let mut event_type = String::from_str(match resource {
        Resource::Course => "course",
        Resource::Module => "module",
        Resource::Lesson => "lesson",
    });
    event_type.append("_");
    event_type.append(match mutation {
        Mutation::Created => "created",
        Mutation::Updated => "updated",
        Mutation::Deleted => "deleted",
        Mutation::Completed => "completed",
    });
    let mut patterns: Vec<String> = Vec::new();
    match resource {
        Resource::Course => {
            patterns.push(pattern_for("programs"));
        },
        Resource::Module => {
            patterns.push(pattern_for("modules"));
            patterns.push(pattern_for("programs"));
        },
        Resource::Lesson => {
            patterns.push(pattern_for("lessons"));
            patterns.push(pattern_for("modules"));
            patterns.push(pattern_for("programs"));
        },
    }
    InvalidationPlan { event_type, resource_id: String::from_str(id), patterns }
}

/// Whatever the mutation, the plan purges, for each family whose reads embed the
/// resource, both the key of every single-resource read and the collection key; in
/// particular the resource's own key and its family's collection key.
pub proof fn lemma_plan_covers(resource: Resource, id: Seq<char>, f: int, other: Seq<char>)
    requires
        0 <= f < affected_families(resource).len(),
    ensures
        affected_families(resource)[0] == family_of(resource),
        pattern_matches(family_pattern(family_of(resource)), item_key(family_of(resource), id)),
        pattern_matches(family_pattern(family_of(resource)), all_key(family_of(resource))),
        pattern_matches(family_pattern(affected_families(resource)[f]), item_key(affected_families(resource)[f], other)),
        pattern_matches(family_pattern(affected_families(resource)[f]), all_key(affected_families(resource)[f])),
{
    lemma_family_pattern_covers(family_of(resource), id);
    lemma_family_pattern_covers(affected_families(resource)[f], other);
}


/// The collection read of a resource: every node of its label (lessons by their order),
/// decoded from column `x`.
pub fn read_all(resource: Resource) -> (r: Neo4jQuery)
    ensures
        r.wf(),
        r@.cypher == match resource {
            Resource::Course => "MATCH (x:Course) RETURN x"@,
            Resource::Module => "MATCH (x:Module) RETURN x"@,
            Resource::Lesson => "MATCH (x:Lesson) RETURN x ORDER BY x.order"@,
        },
        r@.params.len() == 0,
        r@.key == Some("x"@),
{
    let q = Neo4jQuery::new(match resource {
        Resource::Course => "MATCH (x:Course) RETURN x",
        Resource::Module => "MATCH (x:Module) RETURN x",
        Resource::Lesson => "MATCH (x:Lesson) RETURN x ORDER BY x.order",
    });
    q.fetch_key("x")
}

/// The read of one resource by its `id`, decoded from column `x`.
pub fn read_one(resource: Resource, id: &str) -> (r: Neo4jQuery)
    ensures
        r.wf(),
        r@.cypher == match resource {
            Resource::Course => "MATCH (x:Course {id: $id}) RETURN x"@,
            Resource::Module => "MATCH (x:Module {id: $id}) RETURN x"@,
            Resource::Lesson => "MATCH (x:Lesson {id: $id}) RETURN x"@,
        },
        r@.params == seq![("id"@, PropSpec::Str(id@))],
        r@.key == Some("x"@),
{
    let q = Neo4jQuery::new(match resource {
        Resource::Course => "MATCH (x:Course {id: $id}) RETURN x",
        Resource::Module => "MATCH (x:Module {id: $id}) RETURN x",
        Resource::Lesson => "MATCH (x:Lesson {id: $id}) RETURN x",
    });
    let q = q.param("id", PropValue::Str(String::from_str(id)));
    assert(with_entry(Seq::<(Seq<char>, PropSpec)>::empty(), "id"@, PropSpec::Str(id@)) =~= seq![("id"@, PropSpec::Str(id@))]);
    q.fetch_key("x")
}

fn modules_read(text: &str, id: &str) -> (r: Statement)
    ensures
        r@.text == text@,
        r@.params == seq![("id"@, PropSpec::Str(id@))],
{
    let mut params: Vec<(String, PropValue)> = Vec::new();
    params.push((String::from_str("id"), PropValue::Str(String::from_str(id))));
    assert(crate::node::props_view(params@) =~= seq![("id"@, PropSpec::Str(id@))]);
    Statement { text: String::from_str(text), params }
}

/// The read of one module with its lessons: a row with the module in column `m` and
/// its lessons collected in column `lessons`.
pub fn read_module_detail(id: &str) -> (r: Statement)
    ensures
        r@.text == "MATCH (m:Module {id: $id}) OPTIONAL MATCH (m)-[:HAS_LESSON]->(l:Lesson) RETURN m, collect(DISTINCT l) AS lessons"@,
        r@.params == seq![("id"@, PropSpec::Str(id@))],
{
    modules_read(
        "MATCH (m:Module {id: $id}) OPTIONAL MATCH (m)-[:HAS_LESSON]->(l:Lesson) RETURN m, collect(DISTINCT l) AS lessons",
        id,
    )
}

/// The read of a course's modules, each row a module in column `m` with its lessons
/// collected in column `lessons`.
pub fn read_course_modules(id: &str) -> (r: Statement)
    ensures
        r@.text == "MATCH (c:Course {id: $id})-[:HAS_MODULE]->(m:Module) OPTIONAL MATCH (m)-[:HAS_LESSON]->(l:Lesson) RETURN m, collect(DISTINCT l) AS lessons"@,
        r@.params == seq![("id"@, PropSpec::Str(id@))],
{
    modules_read(
        "MATCH (c:Course {id: $id})-[:HAS_MODULE]->(m:Module) OPTIONAL MATCH (m)-[:HAS_LESSON]->(l:Lesson) RETURN m, collect(DISTINCT l) AS lessons",
        id,
    )
}

/// The first entity of a read by id, or `NotFound` where the read found none.
pub fn first_or_not_found<T>(found: Vec<T>, what: &str) -> (r: Result<T, ApiError>)
    ensures
        found@.len() == 0 ==> r is Err && r->Err_0 is NotFound,
        found@.len() > 0 ==> r == Ok::<T, ApiError>(found@[0]),
{
    let mut found = found;
    if found.len() == 0 {
        let mut msg = String::from_str(what);
        msg.append(" not found");
        return Err(ApiError::NotFound(msg));
    }
    Ok(found.swap_remove(0))
}


/// The step of a mutation's follow-up that comes next.
#[derive(Debug)]
pub enum MutationStep {
    /// Publish the invalidation event.
    Publish { event_type: String, resource_id: String },
    /// Purge every cache key under this pattern.
    Purge(String),
    /// Every step succeeded.
    Finished,
    /// A step failed; the request ends with its error, and nothing is retried or undone.
    Failed,
}

pub enum StepView {
    Publish(Seq<char>, Seq<char>),
    Purge(Seq<char>),
    Finished,
    Failed,
}

impl View for MutationStep {
    type V = StepView;

    open spec fn view(&self) -> StepView {
        match self {
            MutationStep::Publish { event_type, resource_id } => StepView::Publish(event_type@, resource_id@),
            MutationStep::Purge(p) => StepView::Purge(p@),
            MutationStep::Finished => StepView::Finished,
            MutationStep::Failed => StepView::Failed,
        }
    }
}

/// The follow-up of a committed mutation: publish the event, then purge each pattern in
/// order, stopping at the first failure.
pub struct MutationRun {
    event_type: String,
    resource_id: String,
    patterns: Vec<String>,
    done: usize,
    failed: bool,
}

pub struct RunView {
    pub event_type: Seq<char>,
    pub resource_id: Seq<char>,
    pub patterns: Seq<Seq<char>>,
    /// How many steps have succeeded.
    pub done: nat,
    pub failed: bool,
}

impl View for MutationRun {
    type V = RunView;

    closed spec fn view(&self) -> RunView {
        RunView {
            event_type: self.event_type@,
            resource_id: self.resource_id@,
            patterns: self.patterns@.map_values(|p: String| p@),
            done: self.done as nat,
            failed: self.failed,
        }
    }
}

/// The step after `v.done` successes: the event first, then the patterns in order.
pub open spec fn step_of(v: RunView) -> StepView {
    if v.failed {
        StepView::Failed
    } else if v.done == 0 {
        StepView::Publish(v.event_type, v.resource_id)
    } else if v.done <= v.patterns.len() {
        StepView::Purge(v.patterns[v.done - 1])
    } else {
        StepView::Finished
    }
}

/// The state after the current step reported `succeeded`; a finished or failed run
/// stays as it is.
pub open spec fn after_step(v: RunView, succeeded: bool) -> RunView {
    if v.failed || v.done > v.patterns.len() {
        v
    } else if succeeded {
        RunView { done: v.done + 1, ..v }
    } else {
        RunView { failed: true, ..v }
    }
}

/// The run that a mutation's plan starts: nothing done yet.
pub open spec fn planned_run(resource: Resource, mutation: Mutation, id: Seq<char>) -> RunView {
    RunView {
        event_type: event_name(resource, mutation),
        resource_id: id,
        patterns: affected_families(resource).map_values(|f: Seq<char>| family_pattern(f)),
        done: 0,
        failed: false,
    }
}

impl MutationRun {
    pub closed spec fn wf(&self) -> bool {
        self.done <= self.patterns@.len() + 1 && self.patterns@.len() < usize::MAX
    }

    /// The run of the plan after `mutation` of the resource `id`.
    pub fn start(resource: Resource, mutation: Mutation, id: &str) -> (r: MutationRun)
        ensures
            r.wf(),
            r@ == planned_run(resource, mutation, id@),
    {
        let plan = plan_invalidation(resource, mutation, id);
        let r = MutationRun {
            event_type: plan.event_type,
            resource_id: plan.resource_id,
            patterns: plan.patterns,
            done: 0,
            failed: false,
        };
        assert(r@.patterns =~= affected_families(resource).map_values(|f: Seq<char>| family_pattern(f)));
        r
    }

    pub fn next_step(&self) -> (r: MutationStep)
        requires
            self.wf(),
        ensures
            r@ == step_of(self@),
    {
        if self.failed {
            MutationStep::Failed
        } else if self.done == 0 {
            MutationStep::Publish { event_type: self.event_type.clone(), resource_id: self.resource_id.clone() }
        } else if self.done <= self.patterns.len() {
            MutationStep::Purge(self.patterns[self.done - 1].clone())
        } else {
            MutationStep::Finished
        }
    }

    /// Records whether the current step succeeded.
    pub fn record(&mut self, succeeded: bool)
        requires
            old(self).wf(),
        ensures
            final(self).wf(),
            final(self)@ == after_step(old(self)@, succeeded),
    {
        if self.failed || self.done > self.patterns.len() {
            return;
        }
        if succeeded {
            self.done = self.done + 1;
        } else {
            self.failed = true;
        }
    }
}

/// The outcome of an update or completion from the rows the statement returned: the
/// updated entity from column `n` of the first row and the follow-up to run, or
/// `NotFound` where no node matched (then nothing is published or purged).
pub fn update_outcome<T: crate::entity::FromNode>(
    rows: &Vec<Row>,
    resource: Resource,
    mutation: Mutation,
    id: &str,
) -> (r: Result<(T, MutationRun), ApiError>)
    ensures
        rows@.len() == 0 ==> r is Err && r->Err_0 is NotFound,
        rows@.len() > 0 ==> (r is Ok <==> row_entity::<T>(rows@[0]@, "n"@) is Some),
        r matches Ok((e, run)) ==> row_entity::<T>(rows@[0]@, "n"@) == Some(e@) && run.wf()
            && run@ == planned_run(resource, mutation, id@),
{
    let mut msg = String::from_str(id);
    msg.append(" not found");
    let e: T = decode_first(rows, ApiError::NotFound(msg))?;
    Ok((e, MutationRun::start(resource, mutation, id)))
}

/// The outcome of a deletion from the rows the statement returned (one per deleted
/// node): the follow-up to run, or `NotFound` where no node matched.
pub fn delete_outcome(rows: &Vec<Row>, resource: Resource, id: &str) -> (r: Result<MutationRun, ApiError>)
    ensures
        r is Err <==> rows@.len() == 0,
        r matches Err(e) ==> e is NotFound,
        r matches Ok(run) ==> run.wf() && run@ == planned_run(resource, Mutation::Deleted, id@),
{
    if rows.len() == 0 {
        let mut msg = String::from_str(id);
        msg.append(" not found");
        return Err(ApiError::NotFound(msg));
    }
    Ok(MutationRun::start(resource, Mutation::Deleted, id))
}

/// A mutation's follow-up publishes the event before any purge, purges each affected
/// family in order, and after a failed step offers no further step: nothing is retried.
pub proof fn lemma_run_order(resource: Resource, mutation: Mutation, id: Seq<char>, k: nat)
    requires
        1 <= k <= affected_families(resource).len(),
    ensures
        step_of(planned_run(resource, mutation, id)) == StepView::Publish(event_name(resource, mutation), id),
        step_of(RunView { done: k, ..planned_run(resource, mutation, id) }) == StepView::Purge(
            family_pattern(affected_families(resource)[k - 1]),
        ),
        step_of(RunView { done: affected_families(resource).len() + 1, ..planned_run(resource, mutation, id) })
            == StepView::Finished,
        forall|v: RunView, ok: bool| v.failed ==> #[trigger] after_step(v, ok) == v && step_of(v) == StepView::Failed,
{
}

} // verus!
