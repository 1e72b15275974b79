use vstd::prelude::*;

verus! {

/// Why a data refresh failed.
#[derive(Clone, Debug)]
pub struct FetchError {
    pub reason: String,
}

/// The store figures shown on the dashboard, each as the text to display.
#[derive(Clone, Debug)]
pub struct ShopifyData {
    pub today_sales: String,
    pub monthly_sales: String,
    pub today_visitors: String,
    pub monthly_visitors: String,
    pub today_orders: String,
    pub monthly_orders: String,
    pub current_active_sessions: String,
}

impl ShopifyData {
    /// Every figure is empty.
    pub open spec fn is_blank(&self) -> bool {
        &&& self.today_sales@.len() == 0
        &&& self.monthly_sales@.len() == 0
        &&& self.today_visitors@.len() == 0
        &&& self.monthly_visitors@.len() == 0
        &&& self.today_orders@.len() == 0
        &&& self.monthly_orders@.len() == 0
        &&& self.current_active_sessions@.len() == 0
    }
}

impl Default for ShopifyData {
    fn default() -> (r: ShopifyData)
        ensures
            r.is_blank(),
    {
        ShopifyData {
            today_sales: String::new(),
            monthly_sales: String::new(),
            today_visitors: String::new(),
            monthly_visitors: String::new(),
            today_orders: String::new(),
            monthly_orders: String::new(),
            current_active_sessions: String::new(),
        }
    }
}

/// The store's data source: its credentials and the figures it fetched last.
#[derive(Clone, Debug)]
pub struct Shopify {
    pub api_key: String,
    pub data: ShopifyData,
}

impl Shopify {
    /// A client for `api_key` that has fetched nothing yet.
    pub fn new(api_key: String) -> (r: Shopify)
        ensures
            r.api_key@ == api_key@,
            r.data.is_blank(),
    {
        Shopify { api_key, data: ShopifyData::default() }
    }

    /// Replaces the figures with what the store reports now. The store's API is not
    /// queried yet, so the figures come back blank and the call always succeeds.
    pub fn get_new_data(&mut self) -> (r: Result<(), FetchError>)
        ensures
            r is Ok,
            final(self).data.is_blank(),
            final(self).api_key@ == old(self).api_key@,
    {
        self.data = ShopifyData::default();
        Ok(())
    }
}

} // verus!
