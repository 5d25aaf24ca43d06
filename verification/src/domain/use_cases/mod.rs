pub mod receipt_scanner;
