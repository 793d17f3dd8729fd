use api::coordinator::{
    delete_outcome, update_outcome, MutationRun, MutationStep,
    complete_lesson, create_course, create_lesson, create_module, link_all, read_all, read_one,
    read_module_detail, read_course_modules, unlink_all, update_course, update_lesson, update_module, Resource,
};
use api::detail::{ModuleWithLessons, ProgramDetail};
use api::dtos::{
    CreateCourseRequest, CreateLessonRequest, CreateModuleRequest, UpdateCourseRequest,
    UpdateLessonRequest, UpdateModuleRequest,
};
use api::entity::{Course, FromNode, Lesson, Module};
use api::error::ApiError;
use api::node::{Cell, NodeRecord, PropValue, Row};
use api::query::{
    create_relationship, decode_first, decode_rows, edges_created, Neo4jCreate, Neo4jDelete,
    Neo4jQuery, Neo4jUpdate, Statement,
};

fn s(x: &str) -> String {
    x.to_string()
}

/// The node a creation leaves in the store: each `prop_k` parameter set as property `k`.
fn stored(label: &str, st: Statement) -> NodeRecord {
    let props = st
        .params
        .into_iter()
        .map(|(k, v)| (k.strip_prefix("prop_").expect("node properties are prefixed").to_string(), v))
        .collect();
    NodeRecord { label: s(label), props }
}

fn str_param<'a>(st: &'a Statement, key: &str) -> Option<&'a str> {
    st.params.iter().find(|(k, _)| k == key).and_then(|(_, v)| match v {
        PropValue::Str(x) => Some(x.as_str()),
        _ => None,
    })
}

fn node(label: &str, props: Vec<(&str, PropValue)>) -> NodeRecord {
    NodeRecord {
        label: s(label),
        props: props.into_iter().map(|(k, v)| (s(k), v)).collect(),
    }
}

fn lesson_request(title: &str, order: i32) -> CreateLessonRequest {
    CreateLessonRequest {
        title: s(title),
        order,
        duration_minutes: 12,
        prerequisites: vec![s("rust-basics")],
        video: s("videos/intro.mp4"),
    }
}

fn course_request() -> CreateCourseRequest {
    CreateCourseRequest {
        title: s("Rust"),
        description: s("Systems programming"),
        category: s("programming"),
        level: s("advanced"),
        rating: 4.5f64.to_bits(),
        instructor: s("Ferris"),
        featured: true,
        status: s("published"),
        cover: s("images/rust.jpg"),
        module_ids: vec![],
        prerequisites: vec![s("c")],
        documents: vec![s("docs/a.pdf"), s("docs/b.pdf")],
        total_duration_minitues: s("240"),
    }
}

#[test]
fn create_statement_binds_every_value() {
    let st = Neo4jCreate::new("Lesson")
        .prop("title", PropValue::Str(s("x' }) DETACH DELETE n //")))
        .prop("order", PropValue::Int(2))
        .build_with_id(s("L1"));
    assert_eq!(
        st.text,
        "CREATE (n:Lesson) SET n.title = $prop_title, n.order = $prop_order, n.id = $prop_id RETURN n, ID(n) AS id"
    );
    assert_eq!(str_param(&st, "prop_title"), Some("x' }) DETACH DELETE n //"));
    assert_eq!(str_param(&st, "prop_id"), Some("L1"));
}

#[test]
fn create_keeps_caller_id_and_replaces_repeated_property() {
    let st = Neo4jCreate::new("Module")
        .prop("id", PropValue::Str(s("M7")))
        .prop("title", PropValue::Str(s("first")))
        .prop("title", PropValue::Str(s("second")))
        .build_with_id(s("unused"));
    assert_eq!(st.text, "CREATE (n:Module) SET n.id = $prop_id, n.title = $prop_title RETURN n, ID(n) AS id");
    assert_eq!(st.params.len(), 2);
    assert_eq!(str_param(&st, "prop_id"), Some("M7"));
    assert_eq!(str_param(&st, "prop_title"), Some("second"));
}

#[test]
fn create_without_id_gets_a_generated_one() {
    let st = Neo4jCreate::new("Course").prop("title", PropValue::Str(s("T"))).build();
    let id = str_param(&st, "prop_id").expect("an id is bound");
    assert_eq!(id.len(), 36);
    assert_eq!(id.matches('-').count(), 4);
    let other = Neo4jCreate::new("Course").build();
    assert_ne!(str_param(&other, "prop_id"), Some(id));
}

#[test]
fn round_trip_lesson() {
    let req = lesson_request("Ownership", 3);
    let st = create_lesson(&req).build_with_id(s("L1"));
    let lesson = Lesson::from_node(&stored("Lesson", st)).unwrap();
    assert_eq!(lesson.id, "L1");
    assert_eq!(lesson.title, "Ownership");
    assert_eq!(lesson.order, 3);
    assert_eq!(lesson.duration_minutes, 12);
    assert_eq!(lesson.prerequisites, vec![s("rust-basics")]);
    assert!(!lesson.completed);
    assert_eq!(lesson.video, "videos/intro.mp4");
}

#[test]
fn round_trip_module() {
    let req = CreateModuleRequest { title: s("Basics"), order: 1, lesson_ids: vec![], module_duration_minutes: 90 };
    let st = create_module(&req).build_with_id(s("M1"));
    let m = Module::from_node(&stored("Module", st)).unwrap();
    assert_eq!((m.id.as_str(), m.title.as_str(), m.order, m.module_duration_minutes), ("M1", "Basics", 1, 90));
}

#[test]
fn round_trip_course() {
    let st = create_course(&course_request()).build_with_id(s("C1"));
    let c = Course::from_node(&stored("Course", st)).unwrap();
    assert_eq!(c.id, "C1");
    assert_eq!(c.title, "Rust");
    assert_eq!(c.description, "Systems programming");
    assert_eq!(c.status, "published");
    assert_eq!(c.category, "programming");
    assert_eq!(c.level, "advanced");
    assert_eq!(f64::from_bits(c.rating), 4.5);
    assert_eq!(c.instructor, "Ferris");
    assert!(c.featured);
    assert_eq!(c.cover, "images/rust.jpg");
    assert_eq!(c.prerequisites, vec![s("c")]);
    assert_eq!(c.documents, vec![s("docs/a.pdf"), s("docs/b.pdf")]);
    assert_eq!(c.total_duration_minutes, 240);
}

#[test]
fn course_defaults_fill_absent_fields() {
    let n = node(
        "Course",
        vec![("id", PropValue::Str(s("C9"))), ("category", PropValue::Str(s("db"))), ("instructor", PropValue::Str(s("Ann")))],
    );
    let c = Course::from_node(&n).unwrap();
    assert_eq!(c.title, "");
    assert_eq!(c.status, "");
    assert_eq!(c.level, "");
    assert_eq!(c.rating, 0);
    assert!(!c.featured);
    assert!(c.prerequisites.is_empty());
    assert!(c.documents.is_empty());
    assert_eq!(c.total_duration_minutes, 0);
}

#[test]
fn missing_required_field_is_conversion_error() {
    let n = node("Course", vec![("id", PropValue::Str(s("C9"))), ("category", PropValue::Str(s("db")))]);
    assert!(matches!(Course::from_node(&n), Err(ApiError::Conversion(_))));
    let n = node("Lesson", vec![("id", PropValue::Str(s("L"))), ("order", PropValue::Int(1))]);
    assert!(matches!(Lesson::from_node(&n), Err(ApiError::Conversion(_))));
    let n = node("Module", vec![("order", PropValue::Int(1))]);
    assert!(matches!(Module::from_node(&n), Err(ApiError::Conversion(_))));
}

#[test]
fn numbers_stored_as_text_are_parsed() {
    let n = node(
        "Module",
        vec![
            ("id", PropValue::Str(s("M"))),
            ("order", PropValue::Str(s("-7"))),
            ("module_duration_minutes", PropValue::Str(s("+45"))),
        ],
    );
    let m = Module::from_node(&n).unwrap();
    assert_eq!(m.order, -7);
    assert_eq!(m.module_duration_minutes, 45);
    let bad = node("Module", vec![("id", PropValue::Str(s("M"))), ("order", PropValue::Str(s("2x")))]);
    assert!(matches!(Module::from_node(&bad), Err(ApiError::Conversion(_))));
    let big = node("Module", vec![("id", PropValue::Str(s("M"))), ("order", PropValue::Str(s("2147483648")))]);
    assert!(matches!(Module::from_node(&big), Err(ApiError::Conversion(_))));
    let wide = node("Module", vec![("id", PropValue::Str(s("M"))), ("order", PropValue::Int(1 << 40))]);
    assert!(matches!(Module::from_node(&wide), Err(ApiError::Conversion(_))));
}

#[test]
fn update_binds_quoted_title_as_parameter() {
    let req = UpdateModuleRequest { title: Some(s("A's Course")), order: Some(3), lesson_ids: None, module_duration_minutes: None };
    let st = update_module("M1", &req).unwrap();
    assert_eq!(st.text, "MATCH (n:Module) WHERE n.id = $node_id SET n.title = $prop_title, n.order = $prop_order RETURN n");
    assert!(!st.text.contains("A's"));
    assert_eq!(str_param(&st, "node_id"), Some("M1"));
    assert_eq!(str_param(&st, "prop_title"), Some("A's Course"));
    assert!(st.params.iter().any(|(k, v)| k == "prop_order" && matches!(v, PropValue::Int(3))));
    let plain = UpdateModuleRequest { title: Some(s("Plain")), order: Some(9), lesson_ids: None, module_duration_minutes: None };
    assert_eq!(update_module("M1", &plain).unwrap().text, st.text);
}

#[test]
fn update_with_no_fields_is_validation_error() {
    let req = UpdateLessonRequest { title: None, order: None, duration_minutes: None, prerequisites: None, completed: None, video: None };
    assert!(matches!(update_lesson("L1", &req), Err(ApiError::Validation(_))));
    let req = UpdateCourseRequest {
        title: None, description: None, status: None, cover: None, module_ids: Some(vec![s("M1")]),
        prerequisites: None, documents: None, total_duration_minitues: None,
    };
    assert!(matches!(update_course("C1", &req), Err(ApiError::Validation(_))));
    assert!(matches!(Neo4jUpdate::new("Lesson").prop("title", PropValue::Str(s("t"))).build(), Err(ApiError::Internal(_))));
    let st = Neo4jUpdate::new("Lesson").node("L1").prop("id", PropValue::Str(s("L2"))).build().unwrap();
    assert_eq!(st.text, "MATCH (n:Lesson) WHERE n.id = $node_id SET n.id = $prop_id RETURN n");
    assert_eq!(str_param(&st, "node_id"), Some("L1"));
    assert_eq!(str_param(&st, "prop_id"), Some("L2"));
    let st = Neo4jUpdate::new("Lesson").node("L1").prop("node_id", PropValue::Str(s("x"))).build().unwrap();
    assert_eq!(str_param(&st, "node_id"), Some("L1"));
    assert_eq!(str_param(&st, "prop_node_id"), Some("x"));
}

#[test]
fn update_lesson_and_course_set_present_fields_in_order() {
    let req = UpdateLessonRequest {
        title: None, order: Some(2), duration_minutes: None, prerequisites: Some(vec![s("a")]),
        completed: Some(true), video: Some(s("v.mp4")),
    };
    let st = update_lesson("L1", &req).unwrap();
    assert_eq!(
        st.text,
        "MATCH (n:Lesson) WHERE n.id = $node_id SET n.order = $prop_order, n.prerequisites = $prop_prerequisites, n.completed = $prop_completed, n.video = $prop_video RETURN n"
    );
    assert_eq!(st.params.len(), 5);
    let req = UpdateCourseRequest {
        title: Some(s("New")), description: None, status: Some(s("draft")), cover: None, module_ids: None,
        prerequisites: None, documents: None, total_duration_minitues: Some(s("30")),
    };
    let st = update_course("C1", &req).unwrap();
    assert_eq!(
        st.text,
        "MATCH (n:Course) WHERE n.id = $node_id SET n.title = $prop_title, n.status = $prop_status, n.total_duration_minutes = $prop_total_duration_minutes RETURN n"
    );
}

#[test]
fn complete_lesson_sets_completed() {
    let st = complete_lesson("L4");
    assert_eq!(st.text, "MATCH (n:Lesson) WHERE n.id = $node_id SET n.completed = $prop_completed RETURN n");
    assert_eq!(str_param(&st, "node_id"), Some("L4"));
    assert!(st.params.iter().any(|(k, v)| k == "prop_completed" && matches!(v, PropValue::Bool(true))));
}

#[test]
fn delete_detaches_node() {
    let st = Neo4jDelete::new("Lesson").node("L1").build().unwrap();
    assert_eq!(st.text, "MATCH (n:Lesson) WHERE n.id = $id WITH n, n.id AS deleted DETACH DELETE n RETURN deleted");
    assert_eq!(str_param(&st, "id"), Some("L1"));
    assert!(matches!(Neo4jDelete::new("Lesson").build(), Err(ApiError::Internal(_))));
}

#[test]
fn relationship_statement_binds_endpoints() {
    let st = create_relationship("C1", "M1", "Course", "Module", "HAS_MODULE", None);
    assert_eq!(
        st.text,
        "MATCH (a:Course {id: $from_id}) MATCH (b:Module {id: $to_id}) CREATE (a)-[r:HAS_MODULE]->(b) RETURN r"
    );
    assert_eq!(str_param(&st, "from_id"), Some("C1"));
    assert_eq!(str_param(&st, "to_id"), Some("M1"));
    let st = create_relationship(
        "C1", "M1", "Course", "Module", "HAS_MODULE",
        Some(vec![(s("weight"), PropValue::Int(1)), (s("since"), PropValue::Int(2)), (s("weight"), PropValue::Int(5))]),
    );
    assert!(st.text.ends_with("CREATE (a)-[r:HAS_MODULE]->(b) SET r.weight = $edge_weight, r.since = $edge_since RETURN r"));
    assert!(st.params.iter().any(|(k, v)| k == "edge_weight" && matches!(v, PropValue::Int(5))));
    assert_eq!(st.params.len(), 4);
    let named = create_relationship("C1", "M1", "Course", "Module", "HAS_MODULE", Some(vec![(s("to_id"), PropValue::Int(1))]));
    assert_eq!(str_param(&named, "to_id"), Some("M1"));
    assert!(named.params.iter().any(|(k, v)| k == "edge_to_id" && matches!(v, PropValue::Int(1))));
}

#[test]
fn orphan_relationship_creates_nothing_and_is_no_error() {
    let st = create_relationship("C1", "missing", "Course", "Module", "HAS_MODULE", None);
    assert_eq!(str_param(&st, "to_id"), Some("missing"));
    let no_rows: Vec<Row> = vec![];
    assert_eq!(edges_created(&no_rows), 0);
}

#[test]
fn links_and_unlinks() {
    let links = link_all("M1", &vec![s("L1"), s("L2")], "Module", "Lesson", "HAS_LESSON");
    assert_eq!(links.len(), 2);
    assert_eq!(str_param(&links[1], "to_id"), Some("L2"));
    assert_eq!(str_param(&links[0], "from_id"), Some("M1"));
    let st = unlink_all("Module", "M1", "HAS_LESSON");
    assert_eq!(st.text, "MATCH (x:Module {id: $id})-[r:HAS_LESSON]->() DELETE r");
}

#[test]
fn query_param_and_fetch_key() {
    let q = Neo4jQuery::new("MATCH (l:Lesson {id: $lesson_id}) RETURN l")
        .param("lesson_id", PropValue::Str(s("a")))
        .param("lesson_id", PropValue::Str(s("b")));
    let rows: Vec<Row> = vec![];
    assert!(matches!(q.statement(), Err(ApiError::Internal(_))));
    assert!(matches!(q.fetch::<Lesson>(&rows), Err(ApiError::Internal(_))));
    let q = q.fetch_key("l");
    let st = q.statement().unwrap();
    assert_eq!(st.params.len(), 1);
    assert_eq!(str_param(&st, "lesson_id"), Some("b"));
    assert_eq!(q.fetch::<Lesson>(&rows).unwrap().len(), 0);
}

#[test]
fn read_queries() {
    let q = read_all(Resource::Lesson);
    assert_eq!(q.statement().unwrap().text, "MATCH (x:Lesson) RETURN x ORDER BY x.order");
    let q = read_one(Resource::Course, "C1");
    let st = q.statement().unwrap();
    assert_eq!(st.text, "MATCH (x:Course {id: $id}) RETURN x");
    assert_eq!(str_param(&st, "id"), Some("C1"));
    let st = read_module_detail("M1");
    assert!(st.text.starts_with("MATCH (m:Module {id: $id}) OPTIONAL MATCH"));
}

fn lesson_node(id: &str, order: i64) -> NodeRecord {
    node(
        "Lesson",
        vec![("id", PropValue::Str(s(id))), ("order", PropValue::Int(order)), ("video", PropValue::Str(s("v")))],
    )
}

#[test]
fn decode_rows_reports_missing_column_and_bad_node() {
    let good = Row { columns: vec![(s("l"), Cell::Node(lesson_node("L1", 1)))] };
    let other = Row { columns: vec![(s("x"), Cell::Other)] };
    let rows = vec![good, other];
    assert!(matches!(decode_rows::<Lesson>(&rows, "l"), Err(ApiError::Internal(_))));
    let bad = Row { columns: vec![(s("l"), Cell::Node(node("Lesson", vec![])))] };
    assert!(matches!(decode_rows::<Lesson>(&vec![bad], "l"), Err(ApiError::Conversion(_))));
    let rows = vec![
        Row { columns: vec![(s("l"), Cell::Node(lesson_node("L1", 1)))] },
        Row { columns: vec![(s("l"), Cell::Node(lesson_node("L2", 2)))] },
    ];
    let ls = decode_rows::<Lesson>(&rows, "l").unwrap();
    assert_eq!(ls.iter().map(|l| l.id.as_str()).collect::<Vec<_>>(), vec!["L1", "L2"]);
}

#[test]
fn decode_first_distinguishes_not_found() {
    let rows: Vec<Row> = vec![];
    let r = decode_first::<Lesson>(&rows, ApiError::NotFound(s("Lesson L1")));
    assert!(matches!(r, Err(ApiError::NotFound(_))));
    let rows = vec![Row { columns: vec![(s("n"), Cell::Node(lesson_node("L1", 1)))] }];
    assert_eq!(decode_first::<Lesson>(&rows, ApiError::NotFound(s("x"))).unwrap().id, "L1");
}

#[test]
fn program_detail_tree() {
    let course = stored("Course", create_course(&course_request()).build_with_id(s("C1")));
    let module_req = CreateModuleRequest { title: s("M"), order: 1, lesson_ids: vec![], module_duration_minutes: 0 };
    let module = stored("Module", create_module(&module_req).build_with_id(s("M1")));
    let lesson = stored("Lesson", create_lesson(&lesson_request("L", 1)).build_with_id(s("L1")));
    let link_cm = create_relationship("C1", "M1", "Course", "Module", "HAS_MODULE", None);
    let link_ml = create_relationship("M1", "L1", "Module", "Lesson", "HAS_LESSON", None);
    assert_eq!(str_param(&link_cm, "to_id"), Some("M1"));
    assert_eq!(str_param(&link_ml, "to_id"), Some("L1"));
    let course_rows = vec![Row { columns: vec![(s("x"), Cell::Node(course))] }];
    let module_rows = vec![Row { columns: vec![(s("m"), Cell::Node(module)), (s("lessons"), Cell::Nodes(vec![lesson]))] }];
    let detail = ProgramDetail::assemble(&course_rows, &module_rows).unwrap();
    assert_eq!(detail.course.id, "C1");
    assert_eq!(detail.modules.len(), 1);
    assert_eq!(detail.modules[0].module.id, "M1");
    assert_eq!(detail.modules[0].lessons.len(), 1);
    assert_eq!(detail.modules[0].lessons[0].id, "L1");
}

#[test]
fn program_detail_absent_course_is_not_found() {
    let none: Vec<Row> = vec![];
    assert!(matches!(ProgramDetail::assemble(&none, &none), Err(ApiError::NotFound(_))));
}

#[test]
fn module_with_lessons_needs_both_columns() {
    let row = Row { columns: vec![(s("m"), Cell::Node(node("Module", vec![("id", PropValue::Str(s("M"))), ("order", PropValue::Int(1))])))] };
    assert!(matches!(ModuleWithLessons::from_row(&row), Err(ApiError::Conversion(_))));
    let row = Row {
        columns: vec![
            (s("m"), Cell::Node(node("Module", vec![("id", PropValue::Str(s("M"))), ("order", PropValue::Int(1))]))),
            (s("lessons"), Cell::Nodes(vec![])),
        ],
    };
    let m = ModuleWithLessons::from_row(&row).unwrap();
    assert!(m.lessons.is_empty());
}

#[test]
fn wrong_type_is_conversion_error() {
    let base = || {
        vec![
            ("id", PropValue::Str(s("C1"))),
            ("category", PropValue::Str(s("db"))),
            ("instructor", PropValue::Str(s("Ann"))),
        ]
    };
    let mut props = base();
    props.push(("status", PropValue::Int(3)));
    assert!(matches!(Course::from_node(&node("Course", props)), Err(ApiError::Conversion(_))));
    let mut props = base();
    props.push(("featured", PropValue::Str(s("yes"))));
    assert!(matches!(Course::from_node(&node("Course", props)), Err(ApiError::Conversion(_))));
    let mut props = base();
    props.push(("documents", PropValue::Unsupported));
    assert!(matches!(Course::from_node(&node("Course", props)), Err(ApiError::Conversion(_))));
}

#[test]
fn update_outcome_not_found_and_found() {
    let none: Vec<Row> = vec![];
    let r = update_outcome::<Lesson>(&none, Resource::Lesson, api::coordinator::Mutation::Updated, "L1");
    assert!(matches!(r, Err(ApiError::NotFound(_))));
    let rows = vec![Row { columns: vec![(s("n"), Cell::Node(lesson_node("L1", 1)))] }];
    let (lesson, run) = update_outcome::<Lesson>(&rows, Resource::Lesson, api::coordinator::Mutation::Updated, "L1").unwrap();
    assert_eq!(lesson.id, "L1");
    assert!(matches!(run.next_step(), MutationStep::Publish { ref event_type, ref resource_id } if event_type == "lesson_updated" && resource_id == "L1"));
}

#[test]
fn delete_outcome_not_found_and_found() {
    let none: Vec<Row> = vec![];
    assert!(matches!(delete_outcome(&none, Resource::Module, "M9"), Err(ApiError::NotFound(_))));
    let one = vec![Row { columns: vec![] }];
    let run = delete_outcome(&one, Resource::Module, "M9").unwrap();
    assert!(matches!(run.next_step(), MutationStep::Publish { ref event_type, .. } if event_type == "module_deleted"));
}

#[test]
fn mutation_run_publishes_then_purges_and_stops_on_failure() {
    let mut run = MutationRun::start(Resource::Lesson, api::coordinator::Mutation::Updated, "L1");
    assert!(matches!(run.next_step(), MutationStep::Publish { .. }));
    run.record(true);
    let mut purged = vec![];
    while let MutationStep::Purge(p) = run.next_step() {
        purged.push(p);
        run.record(true);
    }
    assert_eq!(purged, vec![s("lessons:*"), s("modules:*"), s("programs:*")]);
    assert!(matches!(run.next_step(), MutationStep::Finished));

    let mut run = MutationRun::start(Resource::Course, api::coordinator::Mutation::Deleted, "C1");
    run.record(false);
    assert!(matches!(run.next_step(), MutationStep::Failed));
    run.record(true);
    assert!(matches!(run.next_step(), MutationStep::Failed));
}

#[test]
fn text_numbers_at_the_edges() {
    let order_of = |text: &str| {
        let n = node("Module", vec![("id", PropValue::Str(s("M"))), ("order", PropValue::Str(s(text)))]);
        Module::from_node(&n).ok().map(|m| m.order)
    };
    assert_eq!(order_of("-2147483648"), Some(i32::MIN));
    assert_eq!(order_of("2147483647"), Some(i32::MAX));
    assert_eq!(order_of("-2147483649"), None);
    assert_eq!(order_of("007"), Some(7));
    assert_eq!(order_of("+"), None);
    assert_eq!(order_of("-"), None);
    assert_eq!(order_of(""), None);
    assert_eq!(order_of(" 1"), None);
    assert_eq!(order_of("99999999999999999999x"), None);
}
