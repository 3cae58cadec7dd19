pub mod token_loader;
