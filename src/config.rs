//! Deployment settings: the listen port, the service's own name and the base
//! URLs of the four upstream services, each with a fixed default.

use vstd::prelude::*;
use vstd::string::StringExecFns;

verus! {

pub const DEFAULT_PORT: &'static str = "8005";

pub const DEFAULT_SERVICE_NAME: &'static str = "analytics-service";

pub const DEFAULT_USER_SERVICE_URL: &'static str = "http://user-service:8001";

pub const DEFAULT_PRODUCT_SERVICE_URL: &'static str = "http://product-service:8002";

pub const DEFAULT_ORDER_SERVICE_URL: &'static str = "http://order-service:8003";

pub const DEFAULT_NOTIFICATION_SERVICE_URL: &'static str = "http://notification-service:8004";

/// One of the upstream services whose collections are counted.
#[derive(Clone, Copy, Debug, PartialEq, Eq, Structural)]
pub enum Service {
    Users,
    Products,
    Orders,
    Notifications,
}

/// The path, relative to a service's base URL, of its collection endpoint.
pub open spec fn collection_path_of(s: Service) -> Seq<char> {
    match s {
        Service::Users => "/api/users"@,
        Service::Products => "/api/products"@,
        Service::Orders => "/api/orders"@,
        Service::Notifications => "/api/notifications"@,
    }
}

impl Service {
    /// The path of this service's collection endpoint.
    pub fn collection_path(&self) -> (r: &'static str)
        ensures
            r@ == collection_path_of(*self),
    {
        match self {
            Service::Users => "/api/users",
            Service::Products => "/api/products",
            Service::Orders => "/api/orders",
            Service::Notifications => "/api/notifications",
        }
    }
}

/// A setting as resolved: the value given, or else the default.
pub open spec fn resolved(given: Option<String>, default: Seq<char>) -> Seq<char> {
    match given {
        Some(v) => v@,
        None => default,
    }
}

fn resolve(given: Option<String>, default: &str) -> (r: String)
    ensures
        r@ == resolved(given, default@),
{
    match given {
        Some(v) => v,
        None => String::from_str(default),
    }
}

/// The service's settings, fixed at start and shared read-only by every request.
#[derive(Clone, Debug)]
pub struct Config {
    pub port: String,
    pub service_name: String,
    pub user_service_url: String,
    pub product_service_url: String,
    pub order_service_url: String,
    pub notification_service_url: String,
}

impl Config {
    /// Resolves the settings from the values found for each of them, taking
    /// the default for each one that is absent. No value is checked: a bad
    /// port or URL shows only when it is used.
    pub fn new(
        port: Option<String>,
        service_name: Option<String>,
        user_service_url: Option<String>,
        product_service_url: Option<String>,
        order_service_url: Option<String>,
        notification_service_url: Option<String>,
    ) -> (r: Config)
        ensures
            r.port@ == resolved(port, DEFAULT_PORT@),
            r.service_name@ == resolved(service_name, DEFAULT_SERVICE_NAME@),
            r.user_service_url@ == resolved(user_service_url, DEFAULT_USER_SERVICE_URL@),
            r.product_service_url@ == resolved(product_service_url, DEFAULT_PRODUCT_SERVICE_URL@),
            r.order_service_url@ == resolved(order_service_url, DEFAULT_ORDER_SERVICE_URL@),
            r.notification_service_url@ == resolved(
                notification_service_url,
                DEFAULT_NOTIFICATION_SERVICE_URL@,
            ),
    {
        Config {
            port: resolve(port, DEFAULT_PORT),
            service_name: resolve(service_name, DEFAULT_SERVICE_NAME),
            user_service_url: resolve(user_service_url, DEFAULT_USER_SERVICE_URL),
            product_service_url: resolve(product_service_url, DEFAULT_PRODUCT_SERVICE_URL),
            order_service_url: resolve(order_service_url, DEFAULT_ORDER_SERVICE_URL),
            notification_service_url: resolve(
                notification_service_url,
                DEFAULT_NOTIFICATION_SERVICE_URL,
            ),
        }
    }

    /// The base URL configured for an upstream service.
    pub open spec fn spec_base_url(&self, s: Service) -> Seq<char> {
        match s {
            Service::Users => self.user_service_url@,
            Service::Products => self.product_service_url@,
            Service::Orders => self.order_service_url@,
            Service::Notifications => self.notification_service_url@,
        }
    }

    /// The base URL configured for an upstream service.
    pub fn base_url(&self, s: Service) -> (r: &String)
        ensures
            r@ == self.spec_base_url(s),
    {
        match s {
            Service::Users => &self.user_service_url,
            Service::Products => &self.product_service_url,
            Service::Orders => &self.order_service_url,
            Service::Notifications => &self.notification_service_url,
        }
    }

    /// The URL of an upstream service's collection endpoint: its base URL
    /// followed by the collection path.
    pub fn collection_url(&self, s: Service) -> (r: String)
        ensures
            r@ == self.spec_base_url(s) + collection_path_of(s),
    {
        self.base_url(s).clone().concat(s.collection_path())
    }
}

} // verus!
