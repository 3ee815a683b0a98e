mod index;
mod msg;
mod registry;
mod store;

pub use index::{
    AddressesAliasesReadonlyStorage, AddressesAliasesStorage, AliasesReadonlyStorage, AliasesStorage,
};
pub use msg::{
    AliasAttributes, HandleAnswer, HandleMsg, InitMsg, QueryMsg, ResponseStatus, SearchResponse,
};
pub use registry::{Registry, RegistryError};
pub use store::{load, may_load, remove, save, Alias, StoreError};
