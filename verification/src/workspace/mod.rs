pub mod devui;
pub mod external;
pub mod init;
pub mod service;
