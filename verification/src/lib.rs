mod capture;
mod message;
mod wrapper;

pub use capture::BacktraceSnapshot;
pub use capture::ContextSnapshot;
pub use message::ErrorMessage;
pub use wrapper::bail;
pub use wrapper::contains_substring;
pub use wrapper::lemma_cause_message;
pub use wrapper::lemma_equal_parts_render_equal;
pub use wrapper::lemma_rendered_contains_message;
pub use wrapper::lemma_rendered_with_backtrace;
pub use wrapper::lemma_rendered_without_backtrace;
pub use wrapper::rendered;
pub use wrapper::wrap;
pub use wrapper::TrasyError;
