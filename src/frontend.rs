//! Types of the browser client: HTTP status classes, API errors, routes and
//! the values exchanged with the server.
use vstd::prelude::*;

verus! {

/// An HTTP status code, by class.
#[derive(Debug, PartialEq, Eq, Structural, Clone, Copy)]
pub enum HttpStatus {
    /// 1xx
    Info(u16),
    /// 2xx
    Success(u16),
    /// 3xx
    Redirect(u16),
    /// 4xx
    ClientError(u16),
    /// 5xx, and any code outside 100..500.
    ServerError(u16),
}

impl HttpStatus {
    /// The class of a status code.
    pub fn from(value: u16) -> (r: HttpStatus)
        ensures
            r == if 100 <= value < 200 {
                HttpStatus::Info(value)
            } else if 200 <= value < 300 {
                HttpStatus::Success(value)
            } else if 300 <= value < 400 {
                HttpStatus::Redirect(value)
            } else if 400 <= value < 500 {
                HttpStatus::ClientError(value)
            } else {
                HttpStatus::ServerError(value)
            },
    {
        if 100 <= value && value < 200 {
            HttpStatus::Info(value)
        } else if 200 <= value && value < 300 {
            HttpStatus::Success(value)
        } else if 300 <= value && value < 400 {
            HttpStatus::Redirect(value)
        } else if 400 <= value && value < 500 {
            HttpStatus::ClientError(value)
        } else {
            HttpStatus::ServerError(value)
        }
    }
}

/// An error answered by the API, by kind, with its message.
#[derive(Debug)]
pub enum ApiError {
    /// 422
    JsonRejection(String),
    /// 5xx
    InternalServerError(String),
    /// 401
    AuthorizationError(String),
    /// 404
    DoesNotExist(String),
    /// 400 and 403
    AccessControlError(String),
    InvalidRequest(String),
    /// Any other status outside 2xx.
    GenericRequestError(String),
}

/// The kind of error a status code stands for: 0 for none (2xx), then one
/// number per variant of `ApiError` in declaration order.
pub open spec fn error_kind_of(status: u16) -> int {
    if status == 400 {
        5
    } else if status == 401 {
        3
    } else if status == 403 {
        5
    } else if status == 404 {
        4
    } else if status == 422 {
        1
    } else if 500 <= status < 600 {
        2
    } else if 200 <= status < 300 {
        0
    } else {
        7
    }
}

impl ApiError {
    /// The number of the variant, as `error_kind_of` counts.
    pub open spec fn kind(&self) -> int {
        match self {
            ApiError::JsonRejection(_) => 1,
            ApiError::InternalServerError(_) => 2,
            ApiError::AuthorizationError(_) => 3,
            ApiError::DoesNotExist(_) => 4,
            ApiError::AccessControlError(_) => 5,
            ApiError::InvalidRequest(_) => 6,
            ApiError::GenericRequestError(_) => 7,
        }
    }

    /// The message carried.
    pub open spec fn message(&self) -> Seq<char> {
        match self {
            ApiError::JsonRejection(m) => m@,
            ApiError::InternalServerError(m) => m@,
            ApiError::AuthorizationError(m) => m@,
            ApiError::DoesNotExist(m) => m@,
            ApiError::AccessControlError(m) => m@,
            ApiError::InvalidRequest(m) => m@,
            ApiError::GenericRequestError(m) => m@,
        }
    }

    /// The error a response status stands for, carrying `msg`; `None` for a
    /// success (2xx).
    pub fn from_status(status: u16, msg: String) -> (r: Option<ApiError>)
        ensures
            error_kind_of(status) == 0 ==> r is None,
            error_kind_of(status) != 0 ==> r is Some && r->0.kind() == error_kind_of(status)
                && r->0.message() == msg@,
    {
        if status == 400 {
            Some(ApiError::AccessControlError(msg))
        } else if status == 401 {
            Some(ApiError::AuthorizationError(msg))
        } else if status == 403 {
            Some(ApiError::AccessControlError(msg))
        } else if status == 404 {
            Some(ApiError::DoesNotExist(msg))
        } else if status == 422 {
            Some(ApiError::JsonRejection(msg))
        } else if 500 <= status && status < 600 {
            Some(ApiError::InternalServerError(msg))
        } else if 200 <= status && status < 300 {
            None
        } else {
            Some(ApiError::GenericRequestError(msg))
        }
    }
}

/// The pages of the client.
#[derive(Debug, Clone, PartialEq, Eq, Structural)]
pub enum AppRoute {
    Login,
    Home,
    NotFound,
}

impl AppRoute {
    /// The path a route is served at.
    pub fn path(&self) -> (r: &'static str)
        ensures
            r@ == match self {
                AppRoute::Login => "/login"@,
                AppRoute::Home => "/"@,
                AppRoute::NotFound => "/not-found"@,
            },
    {
        match self {
            AppRoute::Login => "/login",
            AppRoute::Home => "/",
            AppRoute::NotFound => "/not-found",
        }
    }
}

/// Credentials sent to log in.
#[derive(Debug, Clone)]
pub struct LoginInfo {
    pub username: String,
    pub password: String,
}

/// The logged-in user, as the client keeps it.
#[derive(Debug, Clone)]
pub struct LoggedUserInfo {
    pub token: String,
    pub user_id: String,
    pub username: String,
    pub admin: Option<bool>,
}

/// A user, as the admin page lists it.
#[derive(Debug, Clone)]
pub struct UserInfo {
    pub user_id: String,
    pub first_name: String,
    pub last_name: String,
    pub username: String,
    pub admin: bool,
}

/// The body of a request to publish a post.
#[derive(Debug, Clone)]
pub struct PublishPostRequest {
    pub title: String,
    pub content: String,
}

/// Properties of the users list.
#[derive(Debug)]
pub struct UsersListProp {
    pub users: Vec<UserInfo>,
}

/// Context shared by the client's components: the logged-in user, if any.
#[derive(Debug, Clone)]
pub struct AppContext {
    pub user_info: Option<LoggedUserInfo>,
}

impl AppContext {
    pub fn new(user_info: Option<LoggedUserInfo>) -> (r: AppContext)
        ensures
            r.user_info == user_info,
    {
        AppContext { user_info }
    }
}

/// A response of the API: its body and status.
#[derive(Debug)]
pub struct ApiResponse<T> {
    pub body: T,
    pub status: HttpStatus,
}

/// Where and how the client reaches the API.
#[derive(Debug, Clone)]
pub struct ApiService {
    api_url: String,
    token: Option<String>,
    mock: bool,
}

impl ApiService {
    pub fn new(api_url: String, mock: bool, token: Option<String>) -> (r: ApiService)
        ensures
            r.api_url() == api_url@,
            r.is_mock() == mock,
            r.token() == token,
    {
        ApiService { api_url, token, mock }
    }

    pub closed spec fn api_url(&self) -> Seq<char> {
        self.api_url@
    }

    pub closed spec fn is_mock(&self) -> bool {
        self.mock
    }

    pub closed spec fn token(&self) -> Option<String> {
        self.token
    }

    /// The base URL of the API.
    pub fn get_api_url(&self) -> (r: &String)
        ensures
            r@ == self.api_url(),
    {
        &self.api_url
    }

    /// Whether answers are made up locally instead of asked from the server.
    pub fn get_mock(&self) -> (r: bool)
        ensures
            r == self.is_mock(),
    {
        self.mock
    }
}

} // verus!
