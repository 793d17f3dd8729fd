//! Domain entities and their decoding from graph nodes.
use vstd::prelude::*;
use crate::error::ApiError;
use crate::node::{
    optional_bool, optional_float, optional_list, optional_num, optional_str, required_num,
    required_str, NodeRecord, NodeView,
};

verus! {

/// A course. `rating` holds the bits of the stored IEEE-754 double.
#[derive(Debug)]
pub struct Course {
    pub id: String,
    pub title: String,
    pub description: String,
    pub status: String,
    pub category: String,
    pub level: String,
    pub rating: u64,
    pub instructor: String,
    pub featured: bool,
    pub cover: String,
    pub prerequisites: Vec<String>,
    pub documents: Vec<String>,
    pub total_duration_minutes: i32,
}

#[derive(Debug)]
pub struct Module {
    pub id: String,
    pub title: String,
    pub order: i32,
    pub module_duration_minutes: i32,
}

#[derive(Debug)]
pub struct Lesson {
    pub id: String,
    pub title: String,
    pub order: i32,
    pub duration_minutes: i32,
    pub prerequisites: Vec<String>,
    pub completed: bool,
    pub video: String,
}

pub struct CourseView {
    pub id: Seq<char>,
    pub title: Seq<char>,
    pub description: Seq<char>,
    pub status: Seq<char>,
    pub category: Seq<char>,
    pub level: Seq<char>,
    pub rating: u64,
    pub instructor: Seq<char>,
    pub featured: bool,
    pub cover: Seq<char>,
    pub prerequisites: Seq<Seq<char>>,
    pub documents: Seq<Seq<char>>,
    pub total_duration_minutes: int,
}

pub struct ModuleView {
    pub id: Seq<char>,
    pub title: Seq<char>,
    pub order: int,
    pub module_duration_minutes: int,
}

pub struct LessonView {
    pub id: Seq<char>,
    pub title: Seq<char>,
    pub order: int,
    pub duration_minutes: int,
    pub prerequisites: Seq<Seq<char>>,
    pub completed: bool,
    pub video: Seq<char>,
}

impl View for Course {
    type V = CourseView;

    open spec fn view(&self) -> CourseView {
        CourseView {
            id: self.id@,
            title: self.title@,
            description: self.description@,
            status: self.status@,
            category: self.category@,
            level: self.level@,
            rating: self.rating,
            instructor: self.instructor@,
            featured: self.featured,
            cover: self.cover@,
            prerequisites: self.prerequisites.deep_view(),
            documents: self.documents.deep_view(),
            total_duration_minutes: self.total_duration_minutes as int,
        }
    }
}

impl View for Module {
    type V = ModuleView;

    open spec fn view(&self) -> ModuleView {
        ModuleView {
            id: self.id@,
            title: self.title@,
            order: self.order as int,
            module_duration_minutes: self.module_duration_minutes as int,
        }
    }
}

impl View for Lesson {
    type V = LessonView;

    open spec fn view(&self) -> LessonView {
        LessonView {
            id: self.id@,
            title: self.title@,
            order: self.order as int,
            duration_minutes: self.duration_minutes as int,
            prerequisites: self.prerequisites.deep_view(),
            completed: self.completed,
            video: self.video@,
        }
    }
}

/// The course a node holds: `id`, `category` and `instructor` are required strings;
/// `total_duration_minutes` is an integer or a string that spells one; every other
/// field takes its zero value (empty, `0`, `false`) where absent. A property of the
/// wrong type does not decode.
pub open spec fn course_of(n: NodeView) -> Option<CourseView> {
    let p = n.props;
    if required_str(p, "id"@) is Some && required_str(p, "category"@) is Some
        && required_str(p, "instructor"@) is Some && optional_num(p, "total_duration_minutes"@) is Some
        && optional_str(p, "title"@, ""@) is Some && optional_str(p, "description"@, ""@) is Some
        && optional_str(p, "status"@, ""@) is Some && optional_str(p, "level"@, ""@) is Some
        && optional_float(p, "rating"@) is Some && optional_bool(p, "featured"@) is Some
        && optional_str(p, "cover"@, ""@) is Some && optional_list(p, "prerequisites"@) is Some
        && optional_list(p, "documents"@) is Some {
        Some(CourseView {
            id: required_str(p, "id"@)->Some_0,
            title: optional_str(p, "title"@, ""@)->Some_0,
            description: optional_str(p, "description"@, ""@)->Some_0,
            status: optional_str(p, "status"@, ""@)->Some_0,
            category: required_str(p, "category"@)->Some_0,
            level: optional_str(p, "level"@, ""@)->Some_0,
            rating: optional_float(p, "rating"@)->Some_0,
            instructor: required_str(p, "instructor"@)->Some_0,
            featured: optional_bool(p, "featured"@)->Some_0,
            cover: optional_str(p, "cover"@, ""@)->Some_0,
            prerequisites: optional_list(p, "prerequisites"@)->Some_0,
            documents: optional_list(p, "documents"@)->Some_0,
            total_duration_minutes: optional_num(p, "total_duration_minutes"@)->Some_0,
        })
    } else {
        None
    }
}

/// The module a node holds: `id` and `order` are required.
pub open spec fn module_of(n: NodeView) -> Option<ModuleView> {
    let p = n.props;
    if required_str(p, "id"@) is Some && required_num(p, "order"@) is Some
        && optional_num(p, "module_duration_minutes"@) is Some && optional_str(p, "title"@, ""@) is Some {
        Some(ModuleView {
            id: required_str(p, "id"@)->Some_0,
            title: optional_str(p, "title"@, ""@)->Some_0,
            order: required_num(p, "order"@)->Some_0,
            module_duration_minutes: optional_num(p, "module_duration_minutes"@)->Some_0,
        })
    } else {
        None
    }
}

/// The lesson a node holds: `id`, `order` and `video` are required.
pub open spec fn lesson_of(n: NodeView) -> Option<LessonView> {
    let p = n.props;
    if required_str(p, "id"@) is Some && required_num(p, "order"@) is Some && required_str(p, "video"@) is Some
        && optional_num(p, "duration_minutes"@) is Some && optional_str(p, "title"@, ""@) is Some
        && optional_list(p, "prerequisites"@) is Some && optional_bool(p, "completed"@) is Some {
        Some(LessonView {
            id: required_str(p, "id"@)->Some_0,
            title: optional_str(p, "title"@, ""@)->Some_0,
            order: required_num(p, "order"@)->Some_0,
            duration_minutes: optional_num(p, "duration_minutes"@)->Some_0,
            prerequisites: optional_list(p, "prerequisites"@)->Some_0,
            completed: optional_bool(p, "completed"@)->Some_0,
            video: required_str(p, "video"@)->Some_0,
        })
    } else {
        None
    }
}

/// Decoding of a graph node into an entity, one implementation per entity kind.
pub trait FromNode: Sized + View {
    /// The entity that a node holds, or `None` where it cannot be decoded.
    spec fn decoded(n: NodeView) -> Option<Self::V>;

    fn from_node(node: &NodeRecord) -> (r: Result<Self, ApiError>)
        ensures
            match r {
                Ok(e) => Self::decoded(node@) == Some(e@),
                Err(err) => Self::decoded(node@) is None && err is Conversion,
            },
    ;
}

fn missing(field: &str) -> (r: ApiError)
    ensures
        r is Conversion,
{
    let mut msg = String::from_str("missing or malformed property ");
    msg.append(field);
    ApiError::Conversion(msg)
}

impl FromNode for Course {
    open spec fn decoded(n: NodeView) -> Option<CourseView> {
        course_of(n)
    }

    fn from_node(node: &NodeRecord) -> (r: Result<Course, ApiError>) {
        let id = match node.required_str("id") {
            Some(s) => s,
            None => return Err(missing("id")),
        };
        let category = match node.required_str("category") {
            Some(s) => s,
            None => return Err(missing("category")),
        };
        let instructor = match node.required_str("instructor") {
            Some(s) => s,
            None => return Err(missing("instructor")),
        };
        let total = match node.optional_num("total_duration_minutes") {
            Some(v) => v,
            None => return Err(missing("total_duration_minutes")),
        };
        let title = match node.optional_str("title", "") {
            Some(v) => v,
            None => return Err(missing("title")),
        };
        let description = match node.optional_str("description", "") {
            Some(v) => v,
            None => return Err(missing("description")),
        };
        let status = match node.optional_str("status", "") {
            Some(v) => v,
            None => return Err(missing("status")),
        };
        let level = match node.optional_str("level", "") {
            Some(v) => v,
            None => return Err(missing("level")),
        };
        let rating = match node.optional_float("rating") {
            Some(v) => v,
            None => return Err(missing("rating")),
        };
        let featured = match node.optional_bool("featured") {
            Some(v) => v,
            None => return Err(missing("featured")),
        };
        let cover = match node.optional_str("cover", "") {
            Some(v) => v,
            None => return Err(missing("cover")),
        };
        let prerequisites = match node.optional_list("prerequisites") {
            Some(v) => v,
            None => return Err(missing("prerequisites")),
        };
        let documents = match node.optional_list("documents") {
            Some(v) => v,
            None => return Err(missing("documents")),
        };
        Ok(Course {
            id,
            title,
            description,
            status,
            category,
            level,
            rating,
            instructor,
            featured,
            cover,
            prerequisites,
            documents,
            total_duration_minutes: total,
        })
    }
}

impl FromNode for Module {
    open spec fn decoded(n: NodeView) -> Option<ModuleView> {
        module_of(n)
    }

    fn from_node(node: &NodeRecord) -> (r: Result<Module, ApiError>) {
        let id = match node.required_str("id") {
            Some(s) => s,
            None => return Err(missing("id")),
        };
        let order = match node.required_num("order") {
            Some(v) => v,
            None => return Err(missing("order")),
        };
        let duration = match node.optional_num("module_duration_minutes") {
            Some(v) => v,
            None => return Err(missing("module_duration_minutes")),
        };
        let title = match node.optional_str("title", "") {
            Some(v) => v,
            None => return Err(missing("title")),
        };
        Ok(Module { id, title, order, module_duration_minutes: duration })
    }
}

impl FromNode for Lesson {
    open spec fn decoded(n: NodeView) -> Option<LessonView> {
        lesson_of(n)
    }

    fn from_node(node: &NodeRecord) -> (r: Result<Lesson, ApiError>) {
        let id = match node.required_str("id") {
            Some(s) => s,
            None => return Err(missing("id")),
        };
        let order = match node.required_num("order") {
            Some(v) => v,
            None => return Err(missing("order")),
        };
        let video = match node.required_str("video") {
            Some(s) => s,
            None => return Err(missing("video")),
        };
        let duration = match node.optional_num("duration_minutes") {
            Some(v) => v,
            None => return Err(missing("duration_minutes")),
        };
        let title = match node.optional_str("title", "") {
            Some(v) => v,
            None => return Err(missing("title")),
        };
        let prerequisites = match node.optional_list("prerequisites") {
            Some(v) => v,
            None => return Err(missing("prerequisites")),
        };
        let completed = match node.optional_bool("completed") {
            Some(v) => v,
            None => return Err(missing("completed")),
        };
        Ok(Lesson { id, title, order, duration_minutes: duration, prerequisites, completed, video })
    }
}

} // verus!
