use vstd::prelude::*;

verus! {

/// Whether the product named by `vendor` and `product` drives a linear array
/// of color zones; `None` when the product table does not know the product.
pub uninterp spec fn product_multizone(vendor: u32, product: u32) -> Option<bool>;

/// Relies on `lifx_core::get_product_info`: a lookup in the crate's static
/// product table, a function of `vendor` and `product` alone. The result's
/// `multizone` field tells a linear-zone device from a single-zone one.
#[verifier::external_body]
pub(crate) fn lookup_multizone(vendor: u32, product: u32) -> (r: Option<bool>)
    ensures
        r == product_multizone(vendor, product),
{
    lifx_core::get_product_info(vendor, product).map(|info| info.multizone)
}

} // verus!
