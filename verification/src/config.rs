//! Configuration of the listeners, the simulated device and the database.

use vstd::prelude::*;

verus! {

/// Server configuration for the TCP and HTTP listeners.
#[derive(Debug, Clone)]
pub struct ServerConfig {
    /// TCP port for Open Protocol connections.
    pub tcp_port: u16,
    /// HTTP port for the REST API and WebSocket.
    pub http_port: u16,
    /// Bind address for all listeners.
    pub bind_address: String,
    /// Capacity of the event broadcast channel.
    pub event_channel_capacity: usize,
    /// Directory holding the frontend assets served over HTTP.
    pub web_root: String,
}

fn default_tcp_port() -> (r: u16)
    ensures
        r == 8080,
{
    8080
}

fn default_http_port() -> (r: u16)
    ensures
        r == 8081,
{
    8081
}

fn default_bind_address() -> (r: String)
    ensures
        r@ == "0.0.0.0"@,
{
    String::from_str("0.0.0.0")
}

fn default_event_channel_capacity() -> (r: usize)
    ensures
        r == 100,
{
    100
}

fn default_web_root() -> (r: String)
    ensures
        r@ == "web"@,
{
    String::from_str("web")
}

impl Default for ServerConfig {
    fn default() -> (r: Self)
        ensures
            r.tcp_port == 8080,
            r.http_port == 8081,
            r.bind_address@ == "0.0.0.0"@,
            r.event_channel_capacity == 100,
            r.web_root@ == "web"@,
    {
        ServerConfig {
            tcp_port: default_tcp_port(),
            http_port: default_http_port(),
            bind_address: default_bind_address(),
            event_channel_capacity: default_event_channel_capacity(),
            web_root: default_web_root(),
        }
    }
}

/// Identification of the simulated device.
#[derive(Debug, Clone)]
pub struct DeviceConfig {
    /// Cell ID of the device.
    pub cell_id: u32,
    /// Channel ID of the device.
    pub channel_id: u32,
    /// Controller name reported in Open Protocol messages.
    pub controller_name: String,
    /// Supplier code reported in Open Protocol messages.
    pub supplier_code: String,
}

fn default_cell_id() -> (r: u32)
    ensures
        r == 1,
{
    1
}

fn default_channel_id() -> (r: u32)
    ensures
        r == 1,
{
    1
}

fn default_controller_name() -> (r: String)
    ensures
        r@ == "OpenProtocolSimulator"@,
{
    String::from_str("OpenProtocolSimulator")
}

fn default_supplier_code() -> (r: String)
    ensures
        r@ == "SIM"@,
{
    String::from_str("SIM")
}

impl Default for DeviceConfig {
    fn default() -> (r: Self)
        ensures
            r.cell_id == 1,
            r.channel_id == 1,
            r.controller_name@ == "OpenProtocolSimulator"@,
            r.supplier_code@ == "SIM"@,
    {
        DeviceConfig {
            cell_id: default_cell_id(),
            channel_id: default_channel_id(),
            controller_name: default_controller_name(),
            supplier_code: default_supplier_code(),
        }
    }
}

/// Database configuration.
#[derive(Debug, Clone)]
pub struct DatabaseConfig {
    /// Path of the SQLite database file.
    pub path: String,
}

fn default_db_path() -> (r: String)
    ensures
        r@ == "simulator.db"@,
{
    String::from_str("simulator.db")
}

impl Default for DatabaseConfig {
    fn default() -> (r: Self)
        ensures
            r.path@ == "simulator.db"@,
    {
        DatabaseConfig { path: default_db_path() }
    }
}

} // verus!
