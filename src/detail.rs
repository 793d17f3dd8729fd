//! Composite reads: a module with its lessons, and a course with its modules,
//! assembled from rows that carry a node and collected lists of child nodes.
use vstd::prelude::*;
use crate::entity::{course_of, lesson_of, module_of, Course, CourseView, FromNode, Lesson, LessonView, Module, ModuleView};
use crate::error::ApiError;
use crate::node::{row_node, row_nodes, NodeView, Row, RowView};
use crate::query::rows_view;

verus! {

#[derive(Debug)]
pub struct ModuleWithLessons {
    pub module: Module,
    pub lessons: Vec<Lesson>,
}

#[derive(Debug)]
pub struct ProgramDetail {
    pub course: Course,
    pub modules: Vec<ModuleWithLessons>,
}

pub struct ModuleWithLessonsView {
    pub module: ModuleView,
    pub lessons: Seq<LessonView>,
}

pub struct ProgramDetailView {
    pub course: CourseView,
    pub modules: Seq<ModuleWithLessonsView>,
}

impl View for ModuleWithLessons {
    type V = ModuleWithLessonsView;

    open spec fn view(&self) -> ModuleWithLessonsView {
        ModuleWithLessonsView {
            module: self.module@,
            lessons: self.lessons@.map_values(|l: Lesson| l@),
        }
    }
}

impl View for ProgramDetail {
    type V = ProgramDetailView;

    open spec fn view(&self) -> ProgramDetailView {
        ProgramDetailView {
            course: self.course@,
            modules: self.modules@.map_values(|m: ModuleWithLessons| m@),
        }
    }
}

/// Each node decodes into a lesson.
pub open spec fn lessons_decode(ns: Seq<NodeView>) -> bool {
    forall|i: int| 0 <= i < ns.len() ==> (#[trigger] lesson_of(ns[i])) is Some
}

/// The module in column `m` of a row, with the lessons collected in column `lessons`.
pub open spec fn module_with_lessons_of(row: RowView) -> Option<ModuleWithLessonsView> {
    match (row_node(row, "m"@), row_nodes(row, "lessons"@)) {
        (Some(m), Some(ls)) => match module_of(m) {
            Some(module) => if lessons_decode(ls) {
                Some(
                    ModuleWithLessonsView {
                        module,
                        lessons: ls.map_values(|n: NodeView| lesson_of(n)->Some_0),
                    },
                )
            } else {
                None
            },
            None => None,
        },
        _ => None,
    }
}

/// Each row holds a module with its lessons.
pub open spec fn module_rows_decode(rows: Seq<RowView>) -> bool {
    forall|i: int| 0 <= i < rows.len() ==> (#[trigger] module_with_lessons_of(rows[i])) is Some
}

/// The course in column `x` of the first course row, with one module per module row.
pub open spec fn program_detail_of(course_rows: Seq<RowView>, module_rows: Seq<RowView>) -> Option<ProgramDetailView> {
    if course_rows.len() > 0 && module_rows_decode(module_rows) {
        match row_node(course_rows[0], "x"@) {
            Some(c) => match course_of(c) {
                Some(course) => Some(
                    ProgramDetailView {
                        course,
                        modules: module_rows.map_values(|r: RowView| module_with_lessons_of(r)->Some_0),
                    },
                ),
                None => None,
            },
            None => None,
        }
    } else {
        None
    }
}

fn conversion(what: &str) -> (r: ApiError)
    ensures
        r is Conversion,
{
    let mut msg = String::from_str("missing column ");
    msg.append(what);
    ApiError::Conversion(msg)
}

impl ModuleWithLessons {
    /// Decodes a row that holds a module node in column `m` and its collected lesson
    /// nodes in column `lessons`; a `Conversion` error where it does not hold them.
    pub fn from_row(row: &Row) -> (r: Result<ModuleWithLessons, ApiError>)
        ensures
            match r {
                Ok(m) => module_with_lessons_of(row@) == Some(m@),
                Err(e) => module_with_lessons_of(row@) is None && e is Conversion,
            },
    {
        let node = match row.node("m") {
            Some(n) => n,
            None => return Err(conversion("m")),
        };
        let nodes = match row.nodes("lessons") {
            Some(ns) => ns,
            None => return Err(conversion("lessons")),
        };
        let module = Module::from_node(node)?;
        let ghost ls = nodes@.map_values(|n: crate::node::NodeRecord| n@);
        let mut lessons: Vec<Lesson> = Vec::new();
        let mut i: usize = 0;
        while i < nodes.len()
            invariant
                i <= nodes@.len(),
                ls == nodes@.map_values(|n: crate::node::NodeRecord| n@),
                row_node(row@, "m"@) == Some(node@),
                row_nodes(row@, "lessons"@) == Some(ls),
                module_of(node@) == Some(module@),
                lessons@.len() == i,
                forall|j: int| 0 <= j < i ==> lesson_of(ls[j]) == Some((#[trigger] lessons@[j])@),
            decreases nodes@.len() - i,
        {
            let lesson = match Lesson::from_node(&nodes[i]) {
                Ok(l) => l,
                Err(e) => {
                    assert(lesson_of(ls[i as int]) is None);
                    return Err(e);
                },
            };
            lessons.push(lesson);
            i = i + 1;
        }
        let r = ModuleWithLessons { module, lessons };
        assert forall|j: int| 0 <= j < ls.len() implies (#[trigger] lesson_of(ls[j])) is Some by {
            assert(lesson_of(ls[j]) == Some(lessons@[j]@));
        }
        assert(r@.lessons =~= ls.map_values(|n: NodeView| lesson_of(n)->Some_0));
        Ok(r)
    }
}

impl ProgramDetail {
    /// Assembles a course's detail from the rows of its course read (the course node in
    /// column `x`) and of its module read (one module with its lessons per row).
    /// `NotFound` where no course row came back.
    pub fn assemble(course_rows: &Vec<Row>, module_rows: &Vec<Row>) -> (r: Result<ProgramDetail, ApiError>)
        ensures
            course_rows@.len() == 0 ==> r is Err && r->Err_0 is NotFound,
            r is Ok <==> program_detail_of(rows_view(course_rows@), rows_view(module_rows@)) is Some,
            r matches Ok(d) ==> program_detail_of(rows_view(course_rows@), rows_view(module_rows@)) == Some(d@),
    {
        let ghost cr = rows_view(course_rows@);
        let ghost mr = rows_view(module_rows@);
        if course_rows.len() == 0 {
            return Err(ApiError::NotFound(String::from_str("course not found")));
        }
        assert(cr[0] == course_rows@[0]@);
        let node = match course_rows[0].node("x") {
            Some(n) => n,
            None => return Err(conversion("x")),
        };
        let course = Course::from_node(node)?;
        let mut modules: Vec<ModuleWithLessons> = Vec::new();
        let mut i: usize = 0;
        while i < module_rows.len()
            invariant
                i <= module_rows@.len(),
                mr == rows_view(module_rows@),
                cr == rows_view(course_rows@),
                course_rows@.len() > 0,
                row_node(cr[0], "x"@) == Some(node@),
                course_of(node@) == Some(course@),
                modules@.len() == i,
                forall|j: int| 0 <= j < i ==> module_with_lessons_of(mr[j]) == Some((#[trigger] modules@[j])@),
            decreases module_rows@.len() - i,
        {
            assert(mr[i as int] == module_rows@[i as int]@);
            let m = match ModuleWithLessons::from_row(&module_rows[i]) {
                Ok(m) => m,
                Err(e) => {
                    assert(module_with_lessons_of(mr[i as int]) is None);
                    return Err(e);
                },
            };
            modules.push(m);
            i = i + 1;
        }
        let r = ProgramDetail { course, modules };
        assert forall|j: int| 0 <= j < mr.len() implies (#[trigger] module_with_lessons_of(mr[j])) is Some by {
            assert(module_with_lessons_of(mr[j]) == Some(modules@[j]@));
        }
        assert(r@.modules =~= mr.map_values(|x: RowView| module_with_lessons_of(x)->Some_0));
        Ok(r)
    }
}

} // verus!
