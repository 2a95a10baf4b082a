//! Helpers around the request handlers: the error taxonomy and the response
//! envelope, barcodes, report identifiers and the shared access token.

pub mod cors;
pub mod product_barcode;
pub mod responses;
pub mod uuid_param;
pub mod wechat_access_token;

pub use cors::CORS;
pub use product_barcode::{ProductBarcode, ProductBarcodeGenerator, ProductBarcodeGeneratorState};
pub use responses::{ErrorResponse, GenericError, StoreFailure, SuccessResponse};
pub use uuid_param::UuidWrapper;
pub use wechat_access_token::{WechatAccessToken, WechatAccessTokenState};
