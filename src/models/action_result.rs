//! The outcome of one attempt at an action.
use vstd::prelude::*;
use vstd::string::*;

verus! {

/// Relies on `SystemTime::now` and `Duration::as_secs`: seconds since the
/// Unix epoch, or 0 when the clock stands before it.
#[verifier::external_body]
pub(crate) fn unix_time() -> (r: i64) {
    std::time::SystemTime::now().duration_since(std::time::UNIX_EPOCH).map(|d| d.as_secs() as i64).unwrap_or(0)
}

/// The characters of an optional string.
pub open spec fn opt_str_view(o: Option<String>) -> Option<Seq<char>> {
    match o {
        Some(s) => Some(s@),
        None => None,
    }
}

/// The outcome of one attempt at an action.
#[derive(Debug)]
pub struct ActionResult {
    pub action_type: String,
    pub success: bool,
    /// Seconds since the Unix epoch at the last change.
    pub timestamp: i64,
    pub error_message: Option<String>,
    pub retry_count: u32,
}

/// The mathematical form of an `ActionResult`.
pub ghost struct ResultView {
    pub action_type: Seq<char>,
    pub success: bool,
    pub timestamp: i64,
    pub error_message: Option<Seq<char>>,
    pub retry_count: u32,
}

impl View for ActionResult {
    type V = ResultView;

    open spec fn view(&self) -> ResultView {
        ResultView {
            action_type: self.action_type@,
            success: self.success,
            timestamp: self.timestamp,
            error_message: opt_str_view(self.error_message),
            retry_count: self.retry_count,
        }
    }
}

impl ActionResult {
    /// A fresh, not yet successful result for an action of the given type.
    pub fn new(action_type: &str) -> (r: ActionResult)
        ensures
            r.action_type@ == action_type@,
            !r.success,
            r.error_message.is_none(),
            r.retry_count == 0,
    {
        ActionResult {
            action_type: String::from_str(action_type),
            success: false,
            timestamp: unix_time(),
            error_message: None,
            retry_count: 0,
        }
    }

    /// Records success; any earlier error message is kept.
    pub fn mark_success(&mut self)
        ensures
            final(self).success,
            final(self).error_message == old(self).error_message,
            final(self).action_type == old(self).action_type,
            final(self).retry_count == old(self).retry_count,
    {
        self.success = true;
        self.timestamp = unix_time();
    }

    /// Records failure with the given message.
    pub fn mark_error(&mut self, error: &str)
        ensures
            !final(self).success,
            opt_str_view(final(self).error_message) == Some(error@),
            final(self).action_type == old(self).action_type,
            final(self).retry_count == old(self).retry_count,
    {
        self.success = false;
        self.error_message = Some(String::from_str(error));
        self.timestamp = unix_time();
    }

    /// Counts one more retry.
    pub fn increment_retry(&mut self)
        requires
            old(self).retry_count < u32::MAX,
        ensures
            final(self).retry_count == old(self).retry_count + 1,
            final(self).success == old(self).success,
            final(self).error_message == old(self).error_message,
            final(self).action_type == old(self).action_type,
    {
        self.retry_count = self.retry_count + 1;
        self.timestamp = unix_time();
    }

    /// This result, marked successful; any earlier error message is kept.
    pub fn success(self) -> (r: ActionResult)
        ensures
            r.success,
            r.error_message == self.error_message,
            r.action_type == self.action_type,
            r.retry_count == self.retry_count,
    {
        let mut r = self;
        r.mark_success();
        r
    }

    /// This result, marked failed with the given message.
    pub fn with_error(self, error: &str) -> (r: ActionResult)
        ensures
            !r.success,
            opt_str_view(r.error_message) == Some(error@),
            r.action_type == self.action_type,
            r.retry_count == self.retry_count,
    {
        let mut r = self;
        r.mark_error(error);
        r
    }

    /// A copy of this result.
    pub fn duplicate(&self) -> (r: ActionResult)
        ensures
            r == *self,
    {
        let error_message = match &self.error_message {
            Some(m) => Some(m.clone()),
            None => None,
        };
        ActionResult {
            action_type: self.action_type.clone(),
            success: self.success,
            timestamp: self.timestamp,
            error_message,
            retry_count: self.retry_count,
        }
    }
}

} // verus!
