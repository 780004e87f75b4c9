//! The authenticated request guard.
//!
//! Every data-fetch operation passes the same policy: the session must be
//! authenticated and hold a CSRF token, the outgoing request carries that
//! token and the caller's identity under the portal's wire field names, and
//! the response is re-examined for implicit session expiry — a non-success
//! status or a redirect to the login page drops the authenticated flag and
//! reports `SessionExpired`. The caller sends the prepared request and hands
//! the raw response body to its own report parser.

use vstd::prelude::*;
use vstd::string::StringExecFns;

use crate::engine::VtopClient;
use crate::errors::VtopError;
use crate::errors::VtopResult;
use crate::session::SessionManager;
use crate::text::contains_seq;
use crate::text::contains_substr;

verus! {

/// How a prepared request's fields travel.
#[derive(Debug)]
pub enum FetchPayload {
    /// A raw form-encoded body.
    UrlEncoded(String),
    /// Multipart form fields, in order.
    Multipart(Vec<(String, String)>),
}

/// A data-fetch request, ready to send.
#[derive(Debug)]
pub struct PreparedFetch {
    pub url: String,
    pub payload: FetchPayload,
}

/// The semester-list request body.
pub open spec fn semesters_body_of(username: Seq<char>, token: Seq<char>) -> Seq<char> {
    "verifyMenu=true&authorizedID="@ + username + "&_csrf="@ + token
        + "&nocache=@(new Date().getTime())"@
}

/// The body shared by the timetable and attendance requests.
pub open spec fn report_body_of(token: Seq<char>, semester_id: Seq<char>, username: Seq<char>) -> Seq<
    char,
> {
    "_csrf="@ + token + "&semesterSubId="@ + semester_id + "&authorizedID="@ + username
}

/// The per-course attendance-detail request body.
pub open spec fn detail_body_of(
    token: Seq<char>,
    semester_id: Seq<char>,
    username: Seq<char>,
    course_id: Seq<char>,
    course_type: Seq<char>,
) -> Seq<char> {
    "_csrf="@ + token + "&semesterSubId="@ + semester_id + "&registerNumber="@ + username
        + "&courseId="@ + course_id + "&courseType="@ + course_type + "&authorizedID="@ + username
}

/// The multipart fields shared by the marks and exam-schedule requests.
pub open spec fn multipart_fields_of(
    fields: Seq<(String, String)>,
    username: Seq<char>,
    semester_id: Seq<char>,
    token: Seq<char>,
) -> bool {
    &&& fields.len() == 3
    &&& fields[0].0@ == "authorizedID"@ && fields[0].1@ == username
    &&& fields[1].0@ == "semesterSubId"@ && fields[1].1@ == semester_id
    &&& fields[2].0@ == "_csrf"@ && fields[2].1@ == token
}

/// A fetch response shows implicit session expiry: a non-success status or a
/// final URL naming the login page.
pub open spec fn fetch_expired(status_success: bool, url: Seq<char>) -> bool {
    !status_success || contains_seq(url, "login"@)
}

/// The guard's precondition outcome: `Err` exactly when the session is not
/// authenticated (and the check is demanded) or holds no token.
pub open spec fn guard_refuses(c: VtopClient, check: bool) -> bool {
    (!c.session.authenticated && check) || c.session.csrf_token is None
}

fn report_body(token: &str, semester_id: &str, username: &str) -> (r: String)
    ensures
        r@ == report_body_of(token@, semester_id@, username@),
{
    let mut s = String::from_str("_csrf=");
    s.append(token);
    s.append("&semesterSubId=");
    s.append(semester_id);
    s.append("&authorizedID=");
    s.append(username);
    s
}

impl VtopClient {
    /// The identity the request goes out under.
    fn identity_str(&self) -> (r: &String)
        ensures
            r@ == self.identity(),
    {
        match &self.registration_id {
            Some(reg) => reg,
            None => &self.username,
        }
    }

    /// The guard's precondition and token lookup, shared by every fetch.
    fn guard_token(&self, check: bool) -> (r: VtopResult<String>)
        ensures
            match r {
                Ok(t) => !guard_refuses(*self, check) && (self.session.csrf_token matches Some(c)
                    && c@ == t@),
                Err(e) => e == VtopError::SessionExpired && guard_refuses(*self, check),
            },
    {
        if !self.session.is_authenticated() && check {
            return Err(VtopError::SessionExpired);
        }
        match self.session.get_csrf_token() {
            Some(t) => Ok(t),
            None => Err(VtopError::SessionExpired),
        }
    }

    /// Prepares the semester-list request.
    pub fn get_semesters(&mut self, check: bool) -> (r: VtopResult<PreparedFetch>)
        ensures
            *final(self) == *old(self),
            match r {
                Ok(p) => {
                    &&& !guard_refuses(*old(self), check)
                    &&& p.url@ == old(self).config.base_url@
                        + "/vtop/academics/common/StudentTimeTable"@
                    &&& (p.payload matches FetchPayload::UrlEncoded(b) && b@ == semesters_body_of(
                        old(self).identity(),
                        old(self).session.csrf_token->Some_0@,
                    ))
                },
                Err(e) => e == VtopError::SessionExpired && guard_refuses(*old(self), check),
            },
    {
        let token = match self.guard_token(check) {
            Ok(t) => t,
            Err(e) => {
                return Err(e);
            },
        };
        let url = {
            let mut s = String::from_str(self.config.base_url.as_str());
            s.append("/vtop/academics/common/StudentTimeTable");
            s
        };
        let mut body = String::from_str("verifyMenu=true&authorizedID=");
        body.append(self.identity_str().as_str());
        body.append("&_csrf=");
        body.append(token.as_str());
        body.append("&nocache=@(new Date().getTime())");
        Ok(PreparedFetch { url, payload: FetchPayload::UrlEncoded(body) })
    }

    /// Prepares the timetable request for a semester.
    pub fn get_timetable(&mut self, semester_id: &str) -> (r: VtopResult<PreparedFetch>)
        ensures
            *final(self) == *old(self),
            match r {
                Ok(p) => {
                    &&& !guard_refuses(*old(self), true)
                    &&& p.url@ == old(self).config.base_url@ + "/vtop/processViewTimeTable"@
                    &&& (p.payload matches FetchPayload::UrlEncoded(b) && b@ == report_body_of(
                        old(self).session.csrf_token->Some_0@,
                        semester_id@,
                        old(self).identity(),
                    ))
                },
                Err(e) => e == VtopError::SessionExpired && guard_refuses(*old(self), true),
            },
    {
        let token = match self.guard_token(true) {
            Ok(t) => t,
            Err(e) => {
                return Err(e);
            },
        };
        let mut url = String::from_str(self.config.base_url.as_str());
        url.append("/vtop/processViewTimeTable");
        let body = report_body(token.as_str(), semester_id, self.identity_str().as_str());
        Ok(PreparedFetch { url, payload: FetchPayload::UrlEncoded(body) })
    }

    /// Prepares the attendance request for a semester.
    pub fn get_attendance(&mut self, semester_id: &str) -> (r: VtopResult<PreparedFetch>)
        ensures
            *final(self) == *old(self),
            match r {
                Ok(p) => {
                    &&& !guard_refuses(*old(self), true)
                    &&& p.url@ == old(self).config.base_url@
                        + "/vtop/processViewStudentAttendance"@
                    &&& (p.payload matches FetchPayload::UrlEncoded(b) && b@ == report_body_of(
                        old(self).session.csrf_token->Some_0@,
                        semester_id@,
                        old(self).identity(),
                    ))
                },
                Err(e) => e == VtopError::SessionExpired && guard_refuses(*old(self), true),
            },
    {
        let token = match self.guard_token(true) {
            Ok(t) => t,
            Err(e) => {
                return Err(e);
            },
        };
        let mut url = String::from_str(self.config.base_url.as_str());
        url.append("/vtop/processViewStudentAttendance");
        let body = report_body(token.as_str(), semester_id, self.identity_str().as_str());
        Ok(PreparedFetch { url, payload: FetchPayload::UrlEncoded(body) })
    }

    /// Prepares the per-course attendance-detail request.
    pub fn get_full_attendance(
        &mut self,
        semester_id: &str,
        course_id: &str,
        course_type: &str,
    ) -> (r: VtopResult<PreparedFetch>)
        ensures
            *final(self) == *old(self),
            match r {
                Ok(p) => {
                    &&& !guard_refuses(*old(self), true)
                    &&& p.url@ == old(self).config.base_url@ + "/vtop/processViewAttendanceDetail"@
                    &&& (p.payload matches FetchPayload::UrlEncoded(b) && b@ == detail_body_of(
                        old(self).session.csrf_token->Some_0@,
                        semester_id@,
                        old(self).identity(),
                        course_id@,
                        course_type@,
                    ))
                },
                Err(e) => e == VtopError::SessionExpired && guard_refuses(*old(self), true),
            },
    {
        let token = match self.guard_token(true) {
            Ok(t) => t,
            Err(e) => {
                return Err(e);
            },
        };
        let mut url = String::from_str(self.config.base_url.as_str());
        url.append("/vtop/processViewAttendanceDetail");
        let mut body = String::from_str("_csrf=");
        body.append(token.as_str());
        body.append("&semesterSubId=");
        body.append(semester_id);
        body.append("&registerNumber=");
        body.append(self.identity_str().as_str());
        body.append("&courseId=");
        body.append(course_id);
        body.append("&courseType=");
        body.append(course_type);
        body.append("&authorizedID=");
        body.append(self.identity_str().as_str());
        Ok(PreparedFetch { url, payload: FetchPayload::UrlEncoded(body) })
    }

    /// The multipart fields shared by the marks and exam-schedule requests.
    fn multipart_fields(&self, semester_id: &str, token: String) -> (r: Vec<(String, String)>)
        ensures
            multipart_fields_of(r@, self.identity(), semester_id@, token@),
    {
        let mut v: Vec<(String, String)> = Vec::new();
        v.push((String::from_str("authorizedID"), self.identity_str().clone()));
        v.push((String::from_str("semesterSubId"), String::from_str(semester_id)));
        v.push((String::from_str("_csrf"), token));
        v
    }

    /// Prepares the marks request for a semester.
    pub fn get_marks(&mut self, semester_id: &str) -> (r: VtopResult<PreparedFetch>)
        ensures
            *final(self) == *old(self),
            match r {
                Ok(p) => {
                    &&& !guard_refuses(*old(self), true)
                    &&& p.url@ == old(self).config.base_url@ + "/vtop/examinations/doStudentMarkView"@
                    &&& (p.payload matches FetchPayload::Multipart(f) && multipart_fields_of(
                        f@,
                        old(self).identity(),
                        semester_id@,
                        old(self).session.csrf_token->Some_0@,
                    ))
                },
                Err(e) => e == VtopError::SessionExpired && guard_refuses(*old(self), true),
            },
    {
        let token = match self.guard_token(true) {
            Ok(t) => t,
            Err(e) => {
                return Err(e);
            },
        };
        let mut url = String::from_str(self.config.base_url.as_str());
        url.append("/vtop/examinations/doStudentMarkView");
        let fields = self.multipart_fields(semester_id, token);
        Ok(PreparedFetch { url, payload: FetchPayload::Multipart(fields) })
    }

    /// Prepares the exam-schedule request for a semester.
    pub fn get_exam_schedule(&mut self, semester_id: &str) -> (r: VtopResult<PreparedFetch>)
        ensures
            *final(self) == *old(self),
            match r {
                Ok(p) => {
                    &&& !guard_refuses(*old(self), true)
                    &&& p.url@ == old(self).config.base_url@
                        + "/vtop/examinations/doSearchExamScheduleForStudent"@
                    &&& (p.payload matches FetchPayload::Multipart(f) && multipart_fields_of(
                        f@,
                        old(self).identity(),
                        semester_id@,
                        old(self).session.csrf_token->Some_0@,
                    ))
                },
                Err(e) => e == VtopError::SessionExpired && guard_refuses(*old(self), true),
            },
    {
        let token = match self.guard_token(true) {
            Ok(t) => t,
            Err(e) => {
                return Err(e);
            },
        };
        let mut url = String::from_str(self.config.base_url.as_str());
        url.append("/vtop/examinations/doSearchExamScheduleForStudent");
        let fields = self.multipart_fields(semester_id, token);
        Ok(PreparedFetch { url, payload: FetchPayload::Multipart(fields) })
    }

    /// Classifies a fetch response. A non-success status or a final URL
    /// naming the login page is implicit session expiry: the authenticated
    /// flag drops and the caller gets `SessionExpired`; afterwards
    /// `is_authenticated` reports false until a successful login.
    pub fn accept_fetch_response(&mut self, status_success: bool, final_url: &str) -> (r: VtopResult<
        (),
    >)
        ensures
            *final(self) == (VtopClient {
                session: SessionManager {
                    authenticated: old(self).session.authenticated && !fetch_expired(
                        status_success,
                        final_url@,
                    ),
                    ..old(self).session
                },
                ..*old(self)
            }),
            match r {
                Ok(_) => !fetch_expired(status_success, final_url@),
                Err(e) => {
                    &&& e == VtopError::SessionExpired
                    &&& fetch_expired(status_success, final_url@)
                    &&& !final(self).session.authenticated
                },
            },
    {
        if !status_success || contains_substr(final_url, "login") {
            self.session.set_authenticated(false);
            return Err(VtopError::SessionExpired);
        }
        Ok(())
    }
}

} // verus!
