//! Requests that create or update content.
use vstd::prelude::*;

verus! {

#[derive(Debug)]
pub struct CreateLessonRequest {
    pub title: String,
    pub order: i32,
    pub duration_minutes: i32,
    pub prerequisites: Vec<String>,
    pub video: String,
}

#[derive(Debug)]
pub struct UpdateLessonRequest {
    pub title: Option<String>,
    pub order: Option<i32>,
    pub duration_minutes: Option<i32>,
    pub prerequisites: Option<Vec<String>>,
    pub completed: Option<bool>,
    pub video: Option<String>,
}

#[derive(Debug)]
pub struct CreateModuleRequest {
    pub title: String,
    pub order: i32,
    pub lesson_ids: Vec<String>,
    pub module_duration_minutes: i32,
}

#[derive(Debug)]
pub struct UpdateModuleRequest {
    pub title: Option<String>,
    pub order: Option<i32>,
    pub lesson_ids: Option<Vec<String>>,
    pub module_duration_minutes: Option<i32>,
}

/// A new course. `rating` holds the bits of an IEEE-754 double; the total duration
/// comes as text, as the store has long held it.
#[derive(Debug)]
pub struct CreateCourseRequest {
    pub title: String,
    pub description: String,
    pub category: String,
    pub level: String,
    pub rating: u64,
    pub instructor: String,
    pub featured: bool,
    pub status: String,
    pub cover: String,
    pub module_ids: Vec<String>,
    pub prerequisites: Vec<String>,
    pub documents: Vec<String>,
    pub total_duration_minitues: String,
}

#[derive(Debug)]
pub struct UpdateCourseRequest {
    pub title: Option<String>,
    pub description: Option<String>,
    pub status: Option<String>,
    pub cover: Option<String>,
    pub module_ids: Option<Vec<String>>,
    pub prerequisites: Option<Vec<String>>,
    pub documents: Option<Vec<String>>,
    pub total_duration_minitues: Option<String>,
}

} // verus!
