pub mod squard_connect;
