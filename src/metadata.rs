//! Records kept beside the graph: lesson metadata, course statistics, and the token
//! service's configuration.
use vstd::prelude::*;

verus! {

#[derive(Debug)]
pub struct LessonMetadata {
    pub id: i32,
    pub course_id: i32,
    pub title: String,
    pub duration_minutes: i32,
    pub order: i32,
}

impl LessonMetadata {
    /// A record not yet stored: its `id` is `0` until the store assigns one.
    pub fn new(course_id: i32, title: &str, duration_minutes: i32, order: i32) -> (r: LessonMetadata)
        ensures
            r.id == 0,
            r.course_id == course_id,
            r.title@ == title@,
            r.duration_minutes == duration_minutes,
            r.order == order,
    {
        LessonMetadata { id: 0, course_id, title: String::from_str(title), duration_minutes, order }
    }
}

/// How many lessons a course has, and their total duration in minutes.
#[derive(Debug)]
pub struct CourseStats {
    pub lesson_count: i64,
    pub total_duration: i64,
}

impl Default for CourseStats {
    fn default() -> (r: CourseStats)
        ensures
            r.lesson_count == 0,
            r.total_duration == 0,
    {
        CourseStats { lesson_count: 0, total_duration: 0 }
    }
}

/// The secrets with which session tokens are signed and encrypted.
pub struct JwtService {
    pub jwt_secret: String,
    pub encryption_key: Vec<u8>,
}

impl JwtService {
    pub fn new(jwt_secret: String, encryption_key: Vec<u8>) -> (r: JwtService)
        ensures
            r.jwt_secret@ == jwt_secret@,
            r.encryption_key@ == encryption_key@,
    {
        JwtService { jwt_secret, encryption_key }
    }
}

} // verus!
