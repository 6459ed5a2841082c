//! The configuration: where things are kept, and who files for whom.

use vstd::prelude::*;
use vstd::string::StringExecFns;

verus! {

/// The whole configuration.
pub struct Config {
    pub pdf: PdfConfig,
    pub ams: AmsConfig,
    pub gpd: GpdConfig,
    /// The directory into which output files go.
    pub output_location: String,
    /// The file of the income ledger.
    pub db_location: String,
    pub user: Option<UserConfig>,
    pub client: Option<ClientConfig>,
}

/// How PDF files are produced.
pub struct PdfConfig {
    /// The program that fills a PDF form from field values.
    pub pdftk_path: String,
}

/// Where the template of the monthly payment form is kept and comes from.
pub struct AmsConfig {
    pub cache_location: String,
    pub download_url: String,
}

/// Where the template of the annual report is kept and comes from.
pub struct GpdConfig {
    pub cache_location: String,
    pub download_url: String,
}

/// The person who files.
pub struct UserConfig {
    pub name: String,
    pub address: String,
    /// The national identification number.
    pub jmbg: String,
    pub phone: Option<String>,
    pub email: Option<String>,
}

/// The client who paid the income.
pub struct ClientConfig {
    pub name: String,
    pub address: String,
    pub country: String,
}

/// The output directory that is used where none is configured.
pub fn default_output_location() -> (s: String)
    ensures
        s@ == "."@,
{
    String::from_str(".")
}

/// The ledger file that is used where none is configured.
pub fn default_db_location() -> (s: String)
    ensures
        s@ == "fbihtax.db.json"@,
{
    String::from_str("fbihtax.db.json")
}

/// Where the template of the monthly form is kept by default.
pub fn default_ams_cache_location() -> (s: String)
    ensures
        s@ == "amscache.pdf"@,
{
    String::from_str("amscache.pdf")
}

/// Where the template of the monthly form comes from by default.
pub fn default_ams_download_url() -> (s: String)
    ensures
        s@ == "http://www.pufbih.ba/v1/public/upload/obrasci/b839c-obrazac-ams_bos_web.pdf"@,
{
    String::from_str("http://www.pufbih.ba/v1/public/upload/obrasci/b839c-obrazac-ams_bos_web.pdf")
}

/// Where the template of the annual report is kept by default.
pub fn default_gpd_cache_location() -> (s: String)
    ensures
        s@ == "gpdcache.pdf"@,
{
    String::from_str("gpdcache.pdf")
}

/// Where the template of the annual report comes from by default.
pub fn default_gpd_download_url() -> (s: String)
    ensures
        s@
            == "http://www.pufbih.ba/v1/public/upload/obrasci/a9d63-94b8a-obrazac_gpd_1051_ver1__bos_web2.pdf"@,
{
    String::from_str(
        "http://www.pufbih.ba/v1/public/upload/obrasci/a9d63-94b8a-obrazac_gpd_1051_ver1__bos_web2.pdf",
    )
}

/// The PDF tool that is used where none is configured.
pub fn default_pdftk_path() -> (s: String)
    ensures
        s@ == "pdftk"@,
{
    String::from_str("pdftk")
}

impl Default for PdfConfig {
    fn default() -> (c: PdfConfig)
        ensures
            c.pdftk_path@ == "pdftk"@,
    {
        PdfConfig { pdftk_path: default_pdftk_path() }
    }
}

impl Default for AmsConfig {
    fn default() -> (c: AmsConfig)
        ensures
            c.cache_location@ == "amscache.pdf"@,
            c.download_url@
                == "http://www.pufbih.ba/v1/public/upload/obrasci/b839c-obrazac-ams_bos_web.pdf"@,
    {
        AmsConfig {
            cache_location: default_ams_cache_location(),
            download_url: default_ams_download_url(),
        }
    }
}

impl Default for GpdConfig {
    fn default() -> (c: GpdConfig)
        ensures
            c.cache_location@ == "gpdcache.pdf"@,
            c.download_url@
                == "http://www.pufbih.ba/v1/public/upload/obrasci/a9d63-94b8a-obrazac_gpd_1051_ver1__bos_web2.pdf"@,
    {
        GpdConfig {
            cache_location: default_gpd_cache_location(),
            download_url: default_gpd_download_url(),
        }
    }
}

impl Default for Config {
    fn default() -> (c: Config)
        ensures
            c.output_location@ == "."@,
            c.db_location@ == "fbihtax.db.json"@,
            c.pdf.pdftk_path@ == "pdftk"@,
            c.ams.cache_location@ == "amscache.pdf"@,
            c.gpd.cache_location@ == "gpdcache.pdf"@,
            c.user is None,
            c.client is None,
    {
        Config {
            output_location: default_output_location(),
            db_location: default_db_location(),
            pdf: PdfConfig::default(),
            ams: AmsConfig::default(),
            gpd: GpdConfig::default(),
            user: None,
            client: None,
        }
    }
}

} // verus!
