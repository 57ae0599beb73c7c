//! The four pages of the application.

pub mod config_page;
pub mod homepage;
pub mod result_page;
pub mod study_page;

pub use config_page::ConfigPage;
pub use homepage::Homepage;
pub use result_page::ResultPage;
pub use study_page::StudyPage;
