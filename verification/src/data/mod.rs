pub mod observable;
