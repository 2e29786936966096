//! A personal note store with two collections: rated outside references and
//! dated inside entries. Each collection is kept whole under a storage key,
//! filled with sample content on first read, and exchanged as a JSON document
//! that leaves identifiers out.

pub mod codec;
pub mod exchange;
pub mod json;
pub mod order;
pub mod records;
pub mod store;

pub use codec::{ExportData, InsideOnlyData, OutsideOnlyData};
pub use exchange::{
    append_data, append_from_json, append_inside_data, append_inside_from_json,
    append_outside_data, append_outside_from_json, export_data, export_to_json, import_data,
    import_from_json, import_inside_data, import_inside_from_json, import_outside_data,
    import_outside_from_json,
};
pub use order::{sort_insides, sort_outsides, text_less};
pub use records::{ExportInside, ExportOutside, Inside, Outside};
pub use store::{
    LocalStore, StorageData, StoreError, add_inside, add_outside, delete_inside, delete_outside,
    get_insides, get_outsides, reset_to_defaults, save_insides, save_outsides, update_inside,
    update_outside,
};
