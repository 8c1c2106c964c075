//! Notification messages of the builder's notification service, and the
//! textual form of a notification's category.
use vstd::prelude::*;
use crate::text::{lower_of, lowercase, text_eq};
use crate::types::text_or;

verus! {

/// The kind of a notification.
#[derive(Clone, Copy, Debug, PartialEq, Eq, Structural)]
pub enum NotificationCategory {
    Info,
    Error,
}

/// The reason a category could not be read from text.
#[derive(Clone, Copy, Debug, PartialEq, Eq, Structural)]
pub enum CategoryError {
    BadNotificationCategory,
}

impl CategoryError {
    /// The message shown for the error.
    pub fn description(&self) -> (r: &str)
        ensures
            r@ == "Notification category cannot be parsed"@,
    {
        "Notification category cannot be parsed"
    }
}

/// The category named by already lower-cased text: `info` or `error`.
pub open spec fn category_of_lowered(t: Seq<char>) -> Option<NotificationCategory> {
    if t == "info"@ {
        Some(NotificationCategory::Info)
    } else if t == "error"@ {
        Some(NotificationCategory::Error)
    } else {
        None
    }
}

/// The category used when none is given.
impl Default for NotificationCategory {
    fn default() -> (r: NotificationCategory)
        ensures
            r == NotificationCategory::Info,
    {
        NotificationCategory::Info
    }
}

impl NotificationCategory {
    /// The lower-case name of the category.
    pub fn as_str(&self) -> (r: &str)
        ensures
            r@ == (match *self {
                NotificationCategory::Info => "info"@,
                NotificationCategory::Error => "error"@,
            }),
    {
        match *self {
            NotificationCategory::Info => "info",
            NotificationCategory::Error => "error",
        }
    }

    /// The name of the category, as it is displayed.
    pub fn to_string(&self) -> (r: String)
        ensures
            r@ == self.as_str_spec(),
    {
        self.as_str().to_owned()
    }

    pub open spec fn as_str_spec(&self) -> Seq<char> {
        match *self {
            NotificationCategory::Info => "info"@,
            NotificationCategory::Error => "error"@,
        }
    }

    /// The numeric value of the category on the wire.
    pub fn value(&self) -> (r: i32)
        ensures
            r == (match *self {
                NotificationCategory::Info => 1i32,
                NotificationCategory::Error => 2i32,
            }),
    {
        match *self {
            NotificationCategory::Info => 1,
            NotificationCategory::Error => 2,
        }
    }

    /// The category with the given numeric value, if any.
    pub fn from_i32(v: i32) -> (r: Option<NotificationCategory>)
        ensures
            r == (if v == 1 {
                Some(NotificationCategory::Info)
            } else if v == 2 {
                Some(NotificationCategory::Error)
            } else {
                None
            }),
    {
        if v == 1 {
            Some(NotificationCategory::Info)
        } else if v == 2 {
            Some(NotificationCategory::Error)
        } else {
            None
        }
    }

    /// Every category, in the order of their numeric values.
    pub fn values() -> (r: Vec<NotificationCategory>)
        ensures
            r@ == seq![NotificationCategory::Info, NotificationCategory::Error],
    {
        let r = vec![NotificationCategory::Info, NotificationCategory::Error];
        assert(r@ =~= seq![NotificationCategory::Info, NotificationCategory::Error]);
        r
    }

    /// Reads a category from text that is already lower case.
    pub fn from_lowered(t: &str) -> (r: Result<NotificationCategory, CategoryError>)
        ensures
            r == (match category_of_lowered(t@) {
                Some(c) => Ok(c),
                None => Err(CategoryError::BadNotificationCategory),
            }),
    {
        if text_eq(t, "info") {
            Ok(NotificationCategory::Info)
        } else if text_eq(t, "error") {
            Ok(NotificationCategory::Error)
        } else {
            proof {
                reveal_strlit("info");
                reveal_strlit("error");
            }
            Err(CategoryError::BadNotificationCategory)
        }
    }

    /// Reads a category from text in any letter case.
    pub fn from_str(value: &str) -> (r: Result<NotificationCategory, CategoryError>)
        ensures
            r == (match category_of_lowered(lower_of(value@)) {
                Some(c) => Ok(c),
                None => Err(CategoryError::BadNotificationCategory),
            }),
    {
        let lowered = lowercase(value);
        NotificationCategory::from_lowered(lowered.as_str())
    }
}

/// A notification addressed to an origin and account.
pub struct Notification {
    id: Option<u64>,
    origin_id: Option<u64>,
    account_id: Option<u64>,
    category: Option<NotificationCategory>,
    data: Option<String>,
}

/// The abstract content of a [`Notification`]: each optional field as present or absent.
pub struct NotificationView {
    pub id: Option<u64>,
    pub origin_id: Option<u64>,
    pub account_id: Option<u64>,
    pub category: Option<NotificationCategory>,
    pub data: Option<Seq<char>>,
}

impl View for Notification {
    type V = NotificationView;

    closed spec fn view(&self) -> NotificationView {
        NotificationView {
            id: self.id,
            origin_id: self.origin_id,
            account_id: self.account_id,
            category: self.category,
            data: match self.data { Some(v) => Some(v@), None => None },
        }
    }
}

impl Clone for Notification {
    fn clone(&self) -> (r: Self)
        ensures
            r@ == self@,
    {
        let id = self.id;
        let origin_id = self.origin_id;
        let account_id = self.account_id;
        let category = self.category;
        let data = match &self.data {
            Some(v) => Some(v.clone()),
            None => None,
        };
        let r = Notification { id, origin_id, account_id, category, data };
        r
    }
}

impl Notification {
    /// A message with every field absent.
    pub fn new() -> (r: Notification)
        ensures
            r@ == Notification::empty_view(),
    {
        let r = Notification { id: None, origin_id: None, account_id: None, category: None, data: None };
        r
    }

    pub fn clear_id(&mut self)
        ensures
            (final(self)@ == NotificationView { id: None, ..old(self)@ }),
    {
        self.id = None;
    }

    pub fn has_id(&self) -> (r: bool)
        ensures
            r == self@.id.is_some(),
    {
        self.id.is_some()
    }

    pub fn set_id(&mut self, v: u64)
        ensures
            (final(self)@ == NotificationView { id: Some(v), ..old(self)@ }),
    {
        self.id = Some(v);
    }

    pub fn get_id(&self) -> (r: u64)
        ensures
            r == self@.id.unwrap_or(0),
    {
        match self.id {
            Some(v) => v,
            None => 0,
        }
    }

    pub fn clear_origin_id(&mut self)
        ensures
            (final(self)@ == NotificationView { origin_id: None, ..old(self)@ }),
    {
        self.origin_id = None;
    }

    pub fn has_origin_id(&self) -> (r: bool)
        ensures
            r == self@.origin_id.is_some(),
    {
        self.origin_id.is_some()
    }

    pub fn set_origin_id(&mut self, v: u64)
        ensures
            (final(self)@ == NotificationView { origin_id: Some(v), ..old(self)@ }),
    {
        self.origin_id = Some(v);
    }

    pub fn get_origin_id(&self) -> (r: u64)
        ensures
            r == self@.origin_id.unwrap_or(0),
    {
        match self.origin_id {
            Some(v) => v,
            None => 0,
        }
    }

    pub fn clear_account_id(&mut self)
        ensures
            (final(self)@ == NotificationView { account_id: None, ..old(self)@ }),
    {
        self.account_id = None;
    }

    pub fn has_account_id(&self) -> (r: bool)
        ensures
            r == self@.account_id.is_some(),
    {
        self.account_id.is_some()
    }

    pub fn set_account_id(&mut self, v: u64)
        ensures
            (final(self)@ == NotificationView { account_id: Some(v), ..old(self)@ }),
    {
        self.account_id = Some(v);
    }

    pub fn get_account_id(&self) -> (r: u64)
        ensures
            r == self@.account_id.unwrap_or(0),
    {
        match self.account_id {
            Some(v) => v,
            None => 0,
        }
    }

    pub fn clear_category(&mut self)
        ensures
            (final(self)@ == NotificationView { category: None, ..old(self)@ }),
    {
        self.category = None;
    }

    pub fn has_category(&self) -> (r: bool)
        ensures
            r == self@.category.is_some(),
    {
        self.category.is_some()
    }

    pub fn set_category(&mut self, v: NotificationCategory)
        ensures
            (final(self)@ == NotificationView { category: Some(v), ..old(self)@ }),
    {
        self.category = Some(v);
    }

    pub fn get_category(&self) -> (r: NotificationCategory)
        ensures
            r == self@.category.unwrap_or(NotificationCategory::Info),
    {
        match self.category {
            Some(v) => v,
            None => NotificationCategory::Info,
        }
    }

    pub fn clear_data(&mut self)
        ensures
            (final(self)@ == NotificationView { data: None, ..old(self)@ }),
    {
        self.data = None;
    }

    pub fn has_data(&self) -> (r: bool)
        ensures
            r == self@.data.is_some(),
    {
        self.data.is_some()
    }

    pub fn set_data(&mut self, v: String)
        ensures
            (final(self)@ == NotificationView { data: Some(v@), ..old(self)@ }),
    {
        self.data = Some(v);
    }

    /// The field, first set to the empty string when absent.
    pub fn mut_data(&mut self) -> (r: &mut String)
        ensures
            r@ == text_or(old(self)@.data, Seq::empty()),
            (final(self)@ == NotificationView { data: Some(final(r)@), ..old(self)@ }),
    {
        self.data.get_or_insert(String::new())
    }

    pub fn take_data(&mut self) -> (r: String)
        ensures
            r@ == text_or(old(self)@.data, Seq::empty()),
            (final(self)@ == NotificationView { data: None, ..old(self)@ }),
    {
        match self.data.take() {
            Some(v) => v,
            None => String::new(),
        }
    }

    pub fn get_data(&self) -> (r: &str)
        ensures
            r@ == text_or(self@.data, ""@),
    {
        match &self.data {
            Some(v) => v.as_str(),
            None => "",
        }
    }

    /// The content of a message with every field absent.
    pub open spec fn empty_view() -> NotificationView {
        NotificationView {
            id: None,
            origin_id: None,
            account_id: None,
            category: None,
            data: None,
        }
    }
}

/// A request to record a notification.
pub struct NotificationCreate {
    notification: Option<Notification>,
}

/// The abstract content of a [`NotificationCreate`]: each optional field as present or absent.
pub struct NotificationCreateView {
    pub notification: Option<NotificationView>,
}

impl View for NotificationCreate {
    type V = NotificationCreateView;

    closed spec fn view(&self) -> NotificationCreateView {
        NotificationCreateView {
            notification: match self.notification { Some(v) => Some(v@), None => None },
        }
    }
}

impl Clone for NotificationCreate {
    fn clone(&self) -> (r: Self)
        ensures
            r@ == self@,
    {
        let notification = match &self.notification {
            Some(v) => Some(v.clone()),
            None => None,
        };
        let r = NotificationCreate { notification };
        r
    }
}

impl NotificationCreate {
    /// A message with every field absent.
    pub fn new() -> (r: NotificationCreate)
        ensures
            r@ == NotificationCreate::empty_view(),
    {
        let r = NotificationCreate { notification: None };
        r
    }

    pub fn clear_notification(&mut self)
        ensures
            (final(self)@ == NotificationCreateView { notification: None, ..old(self)@ }),
    {
        self.notification = None;
    }

    pub fn has_notification(&self) -> (r: bool)
        ensures
            r == self@.notification.is_some(),
    {
        self.notification.is_some()
    }

    pub fn set_notification(&mut self, v: Notification)
        ensures
            (final(self)@ == NotificationCreateView { notification: Some(v@), ..old(self)@ }),
    {
        self.notification = Some(v);
    }

    /// The field, first set to an empty message when absent.
    pub fn mut_notification(&mut self) -> (r: &mut Notification)
        ensures
            r@ == old(self)@.notification.unwrap_or(Notification::empty_view()),
            (final(self)@ == NotificationCreateView { notification: Some(final(r)@), ..old(self)@ }),
    {
        self.notification.get_or_insert(Notification::new())
    }

    pub fn take_notification(&mut self) -> (r: Notification)
        ensures
            r@ == old(self)@.notification.unwrap_or(Notification::empty_view()),
            (final(self)@ == NotificationCreateView { notification: None, ..old(self)@ }),
    {
        match self.notification.take() {
            Some(v) => v,
            None => Notification::new(),
        }
    }

    /// A copy of the field, or an empty message when absent.
    pub fn get_notification(&self) -> (r: Notification)
        ensures
            r@ == self@.notification.unwrap_or(Notification::empty_view()),
    {
        match &self.notification {
            Some(v) => v.clone(),
            None => Notification::new(),
        }
    }

    /// The content of a message with every field absent.
    pub open spec fn empty_view() -> NotificationCreateView {
        NotificationCreateView {
            notification: None,
        }
    }
}

impl Notification {
    /// A notification has no required field.
    pub fn is_initialized(&self) -> (r: bool)
        ensures
            r,
    {
        true
    }
}

impl NotificationCreate {
    /// A request is complete whenever its notification is, which a
    /// notification always is.
    pub fn is_initialized(&self) -> (r: bool)
        ensures
            r,
    {
        match &self.notification {
            Some(n) => n.is_initialized(),
            None => true,
        }
    }

    /// The key by which a request is routed: the notification's origin.
    pub fn route_key(&self) -> (r: Option<u64>)
        ensures
            r == Some(self@.notification.unwrap_or(Notification::empty_view()).origin_id.unwrap_or(0)),
    {
        Some(self.get_notification().get_origin_id())
    }
}

} // verus!
