//! The stat assemblers: each packages counts already taken from its upstream
//! services with one capture time, stamped after all of them were resolved.
//! None of them can fail.

use vstd::prelude::*;

use crate::config::Config;
use crate::count::{json_shape, reply_count, reply_fails, Reply, Shape};
use crate::models::{now, HealthResponse, OrderStats, ProductStats, Summary, UserStats};

verus! {

/// The status a health probe always reports.
pub const HEALTHY: &'static str = "healthy";

/// Answers a health probe: healthy, under the configured service name,
/// whatever state the upstream services are in.
pub fn health_check(config: &Config) -> (r: HealthResponse)
    ensures
        r.status@ == HEALTHY@,
        r.service@ == config.service_name@,
        r.time.wf(),
{
    HealthResponse { status: HEALTHY.to_string(), service: config.service_name.clone(), time: now() }
}

/// Packages the counts of the four upstream collections.
pub fn get_summary(users: usize, products: usize, orders: usize, notifications: usize) -> (r:
    Summary)
    ensures
        r.total_users == users,
        r.total_products == products,
        r.total_orders == orders,
        r.total_notifications == notifications,
        r.timestamp.wf(),
{
    Summary {
        total_users: users,
        total_products: products,
        total_orders: orders,
        total_notifications: notifications,
        timestamp: now(),
    }
}

/// Packages the count of the users collection.
pub fn get_user_stats(total: usize) -> (r: UserStats)
    ensures
        r.total == total,
        r.timestamp.wf(),
{
    UserStats { total, timestamp: now() }
}

/// Packages the count of the products collection.
pub fn get_product_stats(total: usize) -> (r: ProductStats)
    ensures
        r.total == total,
        r.timestamp.wf(),
{
    ProductStats { total, timestamp: now() }
}

/// Packages the count of the orders collection.
pub fn get_order_stats(total: usize) -> (r: OrderStats)
    ensures
        r.total == total,
        r.timestamp.wf(),
{
    OrderStats { total, timestamp: now() }
}

/// The count one field of a summary holds for its reply: the reply's array
/// length where it decoded to an array, and zero where it failed in any way
/// or held some other document.
pub open spec fn field_for(field: usize, reply: Reply) -> bool {
    &&& reply_fails(reply) ==> field == 0
    &&& reply matches Reply::Body(body) ==> match json_shape(body@) {
        Shape::Array { len } => field == len,
        _ => field == 0,
    }
}

/// A summary tolerates any mix of failing upstreams: assembled from the
/// counts of four replies, every field holds its own reply's count, so each
/// failed upstream contributes zero and no failure touches another field or
/// the summary as a whole.
pub proof fn lemma_summary_tolerates_partial_failure(
    users: Reply,
    products: Reply,
    orders: Reply,
    notifications: Reply,
    s: Summary,
)
    requires
        s.total_users == reply_count(users),
        s.total_products == reply_count(products),
        s.total_orders == reply_count(orders),
        s.total_notifications == reply_count(notifications),
    ensures
        field_for(s.total_users, users),
        field_for(s.total_products, products),
        field_for(s.total_orders, orders),
        field_for(s.total_notifications, notifications),
{
}

} // verus!
