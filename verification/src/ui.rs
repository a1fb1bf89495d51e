pub mod gm_ui;
