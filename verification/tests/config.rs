use image_publisher::models::config::{
    AppConfig, ImageOptimizerConfig, OpenAIConfig, WordPressSite,
};

fn site(id: &str, context: Option<&str>) -> WordPressSite {
    WordPressSite {
        id: id.to_string(),
        site_url: format!("https://{}.example", id),
        username: "editor".to_string(),
        app_password: "secret".to_string(),
        context: context.map(|c| c.to_string()),
        convert_to_webp: Some(false),
        quality: Some(70),
        max_width: Some(1200),
    }
}

#[test]
fn default_config_is_empty_with_the_optimizer_defaults() {
    let config = AppConfig::default();
    assert_eq!(
        config,
        AppConfig {
            openai: None,
            wordpress_sites: vec![],
            image_optimizer: ImageOptimizerConfig { convert_to_webp: true, max_width: 1920, quality: 85 },
        }
    );
}

#[test]
fn find_site_matches_the_whole_id() {
    let config = AppConfig {
        openai: None,
        wordpress_sites: vec![site("blog", None), site("shop", Some("A shop"))],
        image_optimizer: AppConfig::default().image_optimizer,
    };
    assert_eq!(config.find_site("shop"), Some(&site("shop", Some("A shop"))));
    assert_eq!(config.find_site("blog"), Some(&site("blog", None)));
    assert_eq!(config.find_site("sho"), None);
    assert_eq!(config.find_site(""), None);
    assert_eq!(AppConfig::default().find_site("blog"), None);
}

#[test]
fn clones_equal_what_they_were_made_from() {
    let credentials = OpenAIConfig { api_url: "https://api".to_string(), api_key: "k".to_string() };
    assert_eq!(credentials.clone(), credentials);
    assert_eq!(site("blog", Some("ctx")).clone(), site("blog", Some("ctx")));
    assert_eq!(site("blog", None).clone(), site("blog", None));
    let config = AppConfig {
        openai: Some(credentials),
        wordpress_sites: vec![site("blog", None), site("shop", Some("A shop"))],
        image_optimizer: ImageOptimizerConfig { convert_to_webp: false, max_width: 800, quality: 60 },
    };
    assert_eq!(config.clone(), config);
}
